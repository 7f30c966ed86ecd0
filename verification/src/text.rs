//! Character-level helpers: UTF-8 widths, Unicode whitespace, trimming,
//! decimal rendering and conversions between `String` and `Vec<char>`.

use vstd::prelude::*;
use vstd::utf8::*;

verus! {

/// Number of bytes that `c` takes in UTF-8.
pub open spec fn utf8_width(c: char) -> nat {
    if (c as u32) < 0x80 {
        1
    } else if (c as u32) < 0x800 {
        2
    } else if (c as u32) < 0x10000 {
        3
    } else {
        4
    }
}

/// Number of bytes that `s` takes in UTF-8.
pub open spec fn utf8_len(s: Seq<char>) -> nat
    decreases s.len(),
{
    if s.len() == 0 {
        0
    } else {
        utf8_width(s[0]) + utf8_len(s.drop_first())
    }
}

/// The byte width of one character agrees with vstd's UTF-8 encoder.
pub proof fn lemma_width_matches_encoding(c: char)
    ensures
        encode_scalar(c as u32).len() == utf8_width(c),
{
    char_is_scalar(c);
}

/// `utf8_len` is the length of vstd's UTF-8 encoding.
pub proof fn lemma_utf8_len_is_encoding_len(s: Seq<char>)
    ensures
        utf8_len(s) == encode_utf8(s).len(),
    decreases s.len(),
{
    if s.len() > 0 {
        lemma_width_matches_encoding(s[0]);
        lemma_utf8_len_is_encoding_len(s.drop_first());
    }
}

/// Byte width of a character (`char::len_utf8`).
pub fn char_width(c: char) -> (w: usize)
    ensures
        w == utf8_width(c),
        1 <= w <= 4,
{
    let v = c as u32;
    if v < 0x80 {
        1
    } else if v < 0x800 {
        2
    } else if v < 0x10000 {
        3
    } else {
        4
    }
}


/// Appends one character to a string (`String::push`).
#[verifier::external_body]
pub(crate) fn push_char(s: &mut String, c: char)
    ensures
        final(s)@ == old(s)@.push(c),
{
    s.push(c);
}

/// The characters of `s`, in order.
pub fn to_chars(s: &str) -> (v: Vec<char>)
    ensures
        v@ == s@,
{
    let mut v: Vec<char> = Vec::new();
    for c in it: s.chars()
        invariant
            v@ == it.seq().take(it.index() as int),
            it.seq() == s@,
    {
        v.push(c);
    }
    v
}

/// A string made of the given characters, in order.
pub fn from_chars(v: &[char]) -> (s: String)
    ensures
        s@ == v@,
{
    let mut s = String::new();
    let mut i: usize = 0;
    while i < v.len()
        invariant
            i <= v@.len(),
            s@ == v@.take(i as int),
        decreases v@.len() - i,
    {
        push_char(&mut s, v[i]);
        assert(v@.take(i + 1) == v@.take(i as int).push(v@[i as int]));
        i = i + 1;
    }
    assert(v@.take(v@.len() as int) == v@);
    s
}


/// `utf8_len` of a concatenation is the sum of the parts.
pub proof fn lemma_utf8_len_concat(a: Seq<char>, b: Seq<char>)
    ensures
        utf8_len(a + b) == utf8_len(a) + utf8_len(b),
    decreases a.len(),
{
    if a.len() > 0 {
        assert((a + b).drop_first() =~= a.drop_first() + b);
        lemma_utf8_len_concat(a.drop_first(), b);
    } else {
        assert(a + b =~= b);
    }
}

/// The byte length of a single character sequence.
pub proof fn lemma_utf8_len_single(c: char)
    ensures
        utf8_len(seq![c]) == utf8_width(c),
{
    assert(seq![c].drop_first() =~= Seq::<char>::empty());
    assert(utf8_len(Seq::<char>::empty()) == 0);
}

/// Extending a prefix by one character adds that character's width.
pub proof fn lemma_utf8_len_take_next(s: Seq<char>, k: int)
    requires
        0 <= k < s.len(),
    ensures
        utf8_len(s.take(k + 1)) == utf8_len(s.take(k)) + utf8_width(s[k]),
{
    assert(s.take(k + 1) =~= s.take(k) + seq![s[k]]);
    lemma_utf8_len_concat(s.take(k), seq![s[k]]);
    lemma_utf8_len_single(s[k]);
}

/// Byte offsets of character prefixes grow strictly with the prefix length.
pub proof fn lemma_utf8_len_take_strict(s: Seq<char>, j: int, k: int)
    requires
        0 <= j < k <= s.len(),
    ensures
        utf8_len(s.take(j)) < utf8_len(s.take(k)),
    decreases k - j,
{
    lemma_utf8_len_take_next(s, k - 1);
    if j < k - 1 {
        lemma_utf8_len_take_strict(s, j, k - 1);
    }
}

/// A prefix never takes more bytes than the whole sequence.
pub proof fn lemma_utf8_len_take_le(s: Seq<char>, k: int)
    requires
        0 <= k <= s.len(),
    ensures
        utf8_len(s.take(k)) <= utf8_len(s),
{
    assert(s =~= s.take(k) + s.skip(k));
    lemma_utf8_len_concat(s.take(k), s.skip(k));
}

/// Cutting out the characters between `a` and `b` never adds bytes.
pub proof fn lemma_utf8_len_cut(s: Seq<char>, a: int, b: int)
    requires
        0 <= a <= b <= s.len(),
    ensures
        utf8_len(s.take(a) + s.skip(b)) <= utf8_len(s),
{
    lemma_utf8_len_concat(s.take(a), s.skip(b));
    lemma_utf8_len_concat(s.take(b), s.skip(b));
    assert(s =~= s.take(b) + s.skip(b));
    assert(s.take(b).take(a) =~= s.take(a));
    lemma_utf8_len_take_le(s.take(b), a);
}

/// Inserting a character adds its width.
pub proof fn lemma_utf8_len_insert(s: Seq<char>, k: int, c: char)
    requires
        0 <= k <= s.len(),
    ensures
        utf8_len(s.take(k).push(c) + s.skip(k)) == utf8_len(s) + utf8_width(c),
{
    assert(s.take(k).push(c) =~= s.take(k) + seq![c]);
    lemma_utf8_len_concat(s.take(k), seq![c]);
    lemma_utf8_len_single(c);
    lemma_utf8_len_concat(s.take(k).push(c), s.skip(k));
    lemma_utf8_len_concat(s.take(k), s.skip(k));
    assert(s =~= s.take(k) + s.skip(k));
}

/// `b` is a byte offset that falls between two characters of `s`.
pub open spec fn is_boundary(s: Seq<char>, b: int) -> bool {
    exists|k: int| 0 <= k <= s.len() && #[trigger] utf8_len(s.take(k)) == b
}

/// The number of characters before byte offset `b` of `s`.
pub open spec fn char_pos(s: Seq<char>, b: int) -> int {
    choose|k: int| 0 <= k <= s.len() && #[trigger] utf8_len(s.take(k)) == b
}

/// At a boundary, `char_pos` is the unique prefix length with that byte length.
pub proof fn lemma_char_pos(s: Seq<char>, k: int)
    requires
        0 <= k <= s.len(),
    ensures
        is_boundary(s, utf8_len(s.take(k)) as int),
        char_pos(s, utf8_len(s.take(k)) as int) == k,
{
    let b = utf8_len(s.take(k)) as int;
    assert(is_boundary(s, b));
    let j = char_pos(s, b);
    if j < k {
        lemma_utf8_len_take_strict(s, j, k);
    } else if k < j {
        lemma_utf8_len_take_strict(s, k, j);
    }
}

/// Byte length of the first `k` characters of `v`.
pub fn prefix_bytes(v: &[char], k: usize) -> (b: usize)
    requires
        k <= v@.len(),
        utf8_len(v@) <= usize::MAX,
    ensures
        b == utf8_len(v@.take(k as int)),
{
    let mut b: usize = 0;
    let mut i: usize = 0;
    while i < k
        invariant
            i <= k <= v@.len(),
            utf8_len(v@) <= usize::MAX,
            b == utf8_len(v@.take(i as int)),
        decreases k - i,
    {
        proof {
            lemma_utf8_len_take_next(v@, i as int);
            lemma_utf8_len_take_le(v@, i + 1);
        }
        b = b + char_width(v[i]);
        i = i + 1;
    }
    b
}

/// The character index at byte offset `b`, which must be a boundary.
pub fn char_index(v: &[char], b: usize) -> (k: usize)
    requires
        is_boundary(v@, b as int),
    ensures
        k <= v@.len(),
        k == char_pos(v@, b as int),
        utf8_len(v@.take(k as int)) == b,
{
    let ghost target = char_pos(v@, b as int);
    proof {
        lemma_char_pos(v@, target);
    }
    let mut acc: usize = 0;
    let mut i: usize = 0;
    while acc < b
        invariant
            0 <= target <= v@.len(),
            utf8_len(v@.take(target)) == b,
            i <= target,
            acc == utf8_len(v@.take(i as int)),
            acc <= b,
        decreases target - i,
    {
        assert(i < target);
        proof {
            lemma_utf8_len_take_next(v@, i as int);
            if i + 1 < target {
                lemma_utf8_len_take_strict(v@, i + 1, target);
            }
        }
        acc = acc + char_width(v[i]);
        i = i + 1;
    }
    proof {
        if i < target {
            lemma_utf8_len_take_strict(v@, i as int, target);
        }
    }
    i
}


/// Unicode `White_Space`, as `char::is_whitespace` defines it.
pub open spec fn is_ws(c: char) -> bool {
    let v = c as u32;
    ||| 0x09 <= v <= 0x0D
    ||| v == 0x20
    ||| v == 0x85
    ||| v == 0xA0
    ||| v == 0x1680
    ||| 0x2000 <= v <= 0x200A
    ||| v == 0x2028
    ||| v == 0x2029
    ||| v == 0x202F
    ||| v == 0x205F
    ||| v == 0x3000
}

/// Whether `c` is Unicode whitespace (`char::is_whitespace`).
pub fn is_whitespace(c: char) -> (b: bool)
    ensures
        b == is_ws(c),
{
    let v = c as u32;
    (0x09 <= v && v <= 0x0D) || v == 0x20 || v == 0x85 || v == 0xA0 || v == 0x1680 || (0x2000
        <= v && v <= 0x200A) || v == 0x2028 || v == 0x2029 || v == 0x202F || v == 0x205F || v
        == 0x3000
}

/// `s` without its trailing whitespace (`str::trim_end`).
pub open spec fn trim_end_seq(s: Seq<char>) -> Seq<char>
    decreases s.len(),
{
    if s.len() > 0 && is_ws(s.last()) {
        trim_end_seq(s.drop_last())
    } else {
        s
    }
}

/// `s` without its leading whitespace (`str::trim_start`).
pub open spec fn trim_start_seq(s: Seq<char>) -> Seq<char>
    decreases s.len(),
{
    if s.len() > 0 && is_ws(s[0]) {
        trim_start_seq(s.drop_first())
    } else {
        s
    }
}

/// `s` without leading and trailing whitespace (`str::trim`).
pub open spec fn trim_seq(s: Seq<char>) -> Seq<char> {
    trim_end_seq(trim_start_seq(s))
}

/// Length of `v` once its trailing whitespace is cut off.
pub fn trim_end_len(v: &[char]) -> (e: usize)
    ensures
        e <= v@.len(),
        v@.take(e as int) == trim_end_seq(v@),
{
    let mut e = v.len();
    assert(v@.take(e as int) =~= v@);
    while e > 0 && is_whitespace(v[e - 1])
        invariant
            e <= v@.len(),
            trim_end_seq(v@.take(e as int)) == trim_end_seq(v@),
        decreases e,
    {
        assert(v@.take(e as int).drop_last() =~= v@.take(e - 1));
        e = e - 1;
    }
    e
}

/// Index of the first character of `v` that is not whitespace (or its length).
pub fn trim_start_index(v: &[char]) -> (b: usize)
    ensures
        b <= v@.len(),
        v@.skip(b as int) == trim_start_seq(v@),
{
    let mut b: usize = 0;
    assert(v@.skip(0) =~= v@);
    while b < v.len() && is_whitespace(v[b])
        invariant
            b <= v@.len(),
            trim_start_seq(v@.skip(b as int)) == trim_start_seq(v@),
        decreases v@.len() - b,
    {
        assert(v@.skip(b as int).drop_first() =~= v@.skip(b + 1));
        b = b + 1;
    }
    b
}

/// `v` without surrounding whitespace, as a new string.
pub fn trimmed(v: &[char]) -> (s: String)
    ensures
        s@ == trim_seq(v@),
{
    let b = trim_start_index(v);
    let rest = &v[b..v.len()];
    assert(rest@ =~= v@.skip(b as int));
    let e = trim_end_len(rest);
    from_chars(&rest[0..e])
}

/// `s` with every trailing `c` removed (`str::trim_end_matches` with a char).
pub open spec fn trim_end_char(s: Seq<char>, c: char) -> Seq<char>
    decreases s.len(),
{
    if s.len() > 0 && s.last() == c {
        trim_end_char(s.drop_last(), c)
    } else {
        s
    }
}

/// `v` with every trailing `c` removed, as a new string.
pub fn trim_end_matching(v: &[char], c: char) -> (s: String)
    ensures
        s@ == trim_end_char(v@, c),
{
    let mut e = v.len();
    assert(v@.take(e as int) =~= v@);
    while e > 0 && v[e - 1] == c
        invariant
            e <= v@.len(),
            trim_end_char(v@.take(e as int), c) == trim_end_char(v@, c),
        decreases e,
    {
        assert(v@.take(e as int).drop_last() =~= v@.take(e - 1));
        e = e - 1;
    }
    from_chars(&v[0..e])
}

/// The ASCII digit for `d < 10`.
pub open spec fn digit_char(d: nat) -> char {
    ((48 + d) as u8) as char
}

/// Decimal rendering of `n`, without sign or leading zeros.
pub open spec fn decimal(n: nat) -> Seq<char>
    decreases n,
{
    if n < 10 {
        seq![digit_char(n)]
    } else {
        decimal(n / 10).push(digit_char(n % 10))
    }
}

/// Appends the decimal rendering of `n` to `s`.
pub fn push_decimal(s: &mut String, n: u64)
    ensures
        final(s)@ == old(s)@ + decimal(n as nat),
    decreases n,
{
    if n >= 10 {
        push_decimal(s, n / 10);
    }
    let d: u8 = (n % 10) as u8;
    push_char(s, (48u8 + d) as char);
    assert(old(s)@ + decimal(n as nat) =~= (if n >= 10 {
        old(s)@ + decimal((n / 10) as nat)
    } else {
        old(s)@
    }).push(digit_char((n % 10) as nat)));
}

/// Decimal rendering of `n` (`n.to_string()`).
pub fn decimal_string(n: u64) -> (s: String)
    ensures
        s@ == decimal(n as nat),
{
    let mut s = String::new();
    push_decimal(&mut s, n);
    assert(Seq::<char>::empty() + decimal(n as nat) =~= decimal(n as nat));
    s
}

/// `needle` occurs in `hay` starting at index `i`.
pub open spec fn occurs_at(hay: Seq<char>, needle: Seq<char>, i: int) -> bool {
    0 <= i && i + needle.len() <= hay.len() && hay.subrange(i, i + needle.len()) == needle
}

/// `needle` occurs somewhere in `hay` (`str::contains`).
pub open spec fn contains_seq(hay: Seq<char>, needle: Seq<char>) -> bool {
    exists|i: int| occurs_at(hay, needle, i)
}

/// Whether `needle` occurs at index `i` of `hay`.
fn matches_at(hay: &[char], needle: &[char], i: usize) -> (b: bool)
    requires
        i + needle@.len() <= hay@.len(),
    ensures
        b == occurs_at(hay@, needle@, i as int),
{
    let n = hay.len();
    let mut j: usize = 0;
    while j < needle.len()
        invariant
            n == hay@.len(),
            j <= needle@.len(),
            i + needle@.len() <= hay@.len(),
            forall|t: int| 0 <= t < j ==> hay@[i + t] == needle@[t],
        decreases needle@.len() - j,
    {
        if hay[i + j] != needle[j] {
            assert(hay@.subrange(i as int, i + needle@.len())[j as int] != needle@[j as int]);
            return false;
        }
        j = j + 1;
    }
    assert(hay@.subrange(i as int, i + needle@.len()) =~= needle@);
    true
}

/// Whether `needle` occurs in `hay`.
pub fn contains_chars(hay: &[char], needle: &[char]) -> (b: bool)
    ensures
        b == contains_seq(hay@, needle@),
{
    if needle.len() > hay.len() {
        return false;
    }
    let last = hay.len() - needle.len();
    let mut i: usize = 0;
    loop
        invariant
            last + needle@.len() == hay@.len(),
            i <= last,
            forall|t: int| 0 <= t < i ==> !occurs_at(hay@, needle@, t),
        decreases last - i,
    {
        if matches_at(hay, needle, i) {
            return true;
        }
        if i == last {
            return false;
        }
        i = i + 1;
    }
}


/// `prefix` is a prefix of `s` (`str::starts_with`).
pub open spec fn has_prefix(s: Seq<char>, prefix: Seq<char>) -> bool {
    prefix.len() <= s.len() && s.take(prefix.len() as int) == prefix
}

/// Whether `prefix` is a prefix of `s`.
pub fn starts_with_chars(s: &[char], prefix: &[char]) -> (b: bool)
    ensures
        b == has_prefix(s@, prefix@),
{
    if prefix.len() > s.len() {
        return false;
    }
    let r = matches_at(s, prefix, 0);
    assert(s@.subrange(0, prefix@.len() as int) =~= s@.take(prefix@.len() as int));
    r
}

/// Index of the first `c` in `s`, if any.
pub open spec fn first_index(s: Seq<char>, c: char) -> Option<int> {
    if exists|i: int| 0 <= i < s.len() && s[i] == c {
        Some(choose|i: int| 0 <= i < s.len() && s[i] == c && forall|j: int| 0 <= j < i ==> s[j] != c)
    } else {
        None
    }
}

/// Where some `c` occurs, a first one does.
proof fn lemma_first_exists(s: Seq<char>, c: char, i: int)
    requires
        0 <= i < s.len(),
        s[i] == c,
    ensures
        exists|k: int| 0 <= k < s.len() && s[k] == c && forall|j: int| 0 <= j < k ==> s[j] != c,
    decreases i,
{
    if exists|j: int| 0 <= j < i && s[j] == c {
        let j = choose|j: int| 0 <= j < i && s[j] == c;
        lemma_first_exists(s, c, j);
    } else {
        assert(0 <= i < s.len() && s[i] == c && forall|j: int| 0 <= j < i ==> s[j] != c);
    }
}

/// `first_index` finds the first occurrence, when there is one.
pub proof fn lemma_first_index(s: Seq<char>, c: char)
    ensures
        first_index(s, c) matches Some(p) ==> 0 <= p < s.len() && s[p] == c && forall|j: int|
            0 <= j < p ==> s[j] != c,
{
    if exists|i: int| 0 <= i < s.len() && s[i] == c {
        let i = choose|i: int| 0 <= i < s.len() && s[i] == c;
        lemma_first_exists(s, c, i);
    }
}

/// Position of the first `c` in `v` (`str::find` with a char, by characters).
pub fn find_char(v: &[char], c: char) -> (r: Option<usize>)
    ensures
        r matches Some(i) ==> first_index(v@, c) == Some(i as int) && i < v@.len() && v@[i as int]
            == c && forall|j: int| 0 <= j < i ==> v@[j] != c,
        r is None ==> first_index(v@, c) is None,
{
    let mut i: usize = 0;
    while i < v.len()
        invariant
            i <= v@.len(),
            forall|j: int| 0 <= j < i ==> v@[j] != c,
        decreases v@.len() - i,
    {
        if v[i] == c {
            let ghost w = choose|k: int| 0 <= k < v@.len() && v@[k] == c && forall|j: int| 0 <= j < k ==> v@[j] != c;
            assert(0 <= i < v@.len() && v@[i as int] == c && forall|j: int| 0 <= j < i ==> v@[j] != c);
            proof {
                if w < i {
                } else if w > i {
                    assert(v@[i as int] != c);
                }
            }
            return Some(i);
        }
        i = i + 1;
    }
    None
}

/// Decoding of a byte buffer in which each invalid UTF-8 sequence became U+FFFD.
pub uninterp spec fn utf8_lossy(bytes: Seq<u8>) -> Seq<char>;

/// Decodes bytes as UTF-8, replacing invalid sequences with U+FFFD
/// (`String::from_utf8_lossy`). Stated: the result is the named decoding
/// of the bytes, and equals the plain decoding when the bytes are valid UTF-8.
#[verifier::external_body]
pub(crate) fn lossy_decode(bytes: &[u8]) -> (s: String)
    ensures
        s@ == utf8_lossy(bytes@),
        valid_utf8(bytes@) ==> s@ == decode_utf8(bytes@),
{
    String::from_utf8_lossy(bytes).into_owned()
}


/// The characters of `a` followed by those of `b`.
pub fn concat_chars(a: &[char], b: &[char]) -> (r: Vec<char>)
    ensures
        r@ == a@ + b@,
{
    let mut r: Vec<char> = Vec::new();
    let mut i: usize = 0;
    while i < a.len()
        invariant
            i <= a@.len(),
            r@ == a@.take(i as int),
        decreases a@.len() - i,
    {
        r.push(a[i]);
        assert(a@.take(i + 1) =~= a@.take(i as int).push(a@[i as int]));
        i = i + 1;
    }
    let mut j: usize = 0;
    while j < b.len()
        invariant
            j <= b@.len(),
            i == a@.len(),
            r@ == a@ + b@.take(j as int),
        decreases b@.len() - j,
    {
        r.push(b[j]);
        assert(a@ + b@.take(j + 1) =~= (a@ + b@.take(j as int)).push(b@[j as int]));
        j = j + 1;
    }
    assert(a@.take(a@.len() as int) =~= a@);
    assert(b@.take(b@.len() as int) =~= b@);
    r
}

/// Whether `a` and `b` hold the same characters.
pub fn eq_chars(a: &[char], b: &[char]) -> (r: bool)
    ensures
        r == (a@ == b@),
{
    if a.len() != b.len() {
        return false;
    }
    let r = matches_at(a, b, 0);
    assert(a@.subrange(0, b@.len() as int) =~= a@);
    r
}

/// Trimming the end keeps a prefix.
pub proof fn lemma_trim_end_is_prefix(s: Seq<char>)
    ensures
        trim_end_seq(s).len() <= s.len(),
        trim_end_seq(s) =~= s.take(trim_end_seq(s).len() as int),
    decreases s.len(),
{
    if s.len() > 0 && is_ws(s.last()) {
        lemma_trim_end_is_prefix(s.drop_last());
    }
}

/// What trimming the end keeps: the characters up to the last one that is
/// not whitespace; everything after it is whitespace.
pub proof fn lemma_trim_end_shape(s: Seq<char>)
    ensures
        ({
            let m = trim_end_seq(s).len() as int;
            &&& m <= s.len()
            &&& trim_end_seq(s) == s.take(m)
            &&& (m == 0 || !is_ws(s[m - 1]))
            &&& forall|i: int| m <= i < s.len() ==> is_ws(#[trigger] s[i])
        }),
    decreases s.len(),
{
    lemma_trim_end_is_prefix(s);
    if s.len() > 0 && is_ws(s.last()) {
        lemma_trim_end_shape(s.drop_last());
        let m = trim_end_seq(s).len() as int;
        assert forall|i: int| m <= i < s.len() implies is_ws(#[trigger] s[i]) by {
            if i < s.len() - 1 {
                assert(s.drop_last()[i] == s[i]);
            }
        }
        if m > 0 {
            assert(s.drop_last()[m - 1] == s[m - 1]);
        }
    }
}

/// Only one prefix length has the shape of a trimmed end.
pub proof fn lemma_trim_end_unique(s: Seq<char>, m: int)
    requires
        0 <= m <= s.len(),
        m == 0 || !is_ws(s[m - 1]),
        forall|i: int| m <= i < s.len() ==> is_ws(#[trigger] s[i]),
    ensures
        trim_end_seq(s) == s.take(m),
{
    lemma_trim_end_shape(s);
    let n = trim_end_seq(s).len() as int;
    if n < m {
        assert(is_ws(s[m - 1]));
    } else if m < n {
        assert(is_ws(s[n - 1]));
    }
}

/// Index of the last whitespace character of `t`, if any.
pub open spec fn last_ws(t: Seq<char>) -> Option<int>
    decreases t.len(),
{
    if t.len() == 0 {
        None
    } else if is_ws(t.last()) {
        Some(t.len() - 1)
    } else {
        last_ws(t.drop_last())
    }
}

/// `last_ws` finds the last whitespace character: no whitespace follows it
/// (and without it, there is none at all).
pub proof fn lemma_last_ws(t: Seq<char>)
    ensures
        last_ws(t) matches Some(j) ==> 0 <= j < t.len() && is_ws(t[j]),
        forall|i: int|
            #![trigger t[i]]
            (match last_ws(t) {
                Some(j) => j,
                None => -1,
            }) < i < t.len() ==> !is_ws(t[i]),
    decreases t.len(),
{
    if t.len() > 0 && !is_ws(t.last()) {
        lemma_last_ws(t.drop_last());
        let u = t.drop_last();
        assert forall|i: int|
            #![trigger t[i]]
            (match last_ws(t) {
                Some(j) => j,
                None => -1,
            }) < i < t.len() implies !is_ws(t[i]) by {
            if i < t.len() - 1 {
                assert(u[i] == t[i]);
            }
        }
    }
}

/// Position of the last whitespace character of `v`.
pub fn rfind_whitespace(v: &[char]) -> (r: Option<usize>)
    ensures
        match r {
            Some(j) => last_ws(v@) == Some(j as int),
            None => last_ws(v@) is None,
        },
{
    let mut e = v.len();
    assert(v@.take(e as int) =~= v@);
    while e > 0
        invariant
            e <= v@.len(),
            last_ws(v@.take(e as int)) == last_ws(v@),
        decreases e,
    {
        if is_whitespace(v[e - 1]) {
            return Some(e - 1);
        }
        assert(v@.take(e as int).drop_last() =~= v@.take(e - 1));
        e = e - 1;
    }
    None
}


/// The lowercase form of a string, by the Unicode `Lowercase` mapping.
pub uninterp spec fn lowercase(s: Seq<char>) -> Seq<char>;

/// The lowercase equivalent of `s` (`str::to_lowercase`). Stated: the
/// result is the named lowercase mapping of the argument.
#[verifier::external_body]
pub(crate) fn to_lowercase(s: &str) -> (r: String)
    ensures
        r@ == lowercase(s@),
{
    s.to_lowercase()
}

/// Whether `v` takes more than `n` bytes in UTF-8.
pub fn utf8_len_exceeds(v: &[char], n: usize) -> (r: bool)
    requires
        n <= usize::MAX - 4,
    ensures
        r == (utf8_len(v@) > n),
{
    let mut acc: usize = 0;
    let mut i: usize = 0;
    while i < v.len()
        invariant
            i <= v@.len(),
            n <= usize::MAX - 4,
            acc == utf8_len(v@.take(i as int)),
            acc <= n,
        decreases v@.len() - i,
    {
        proof {
            lemma_utf8_len_take_next(v@, i as int);
        }
        acc = acc + char_width(v[i]);
        i = i + 1;
        if acc > n {
            proof {
                lemma_utf8_len_take_le(v@, i as int);
            }
            return true;
        }
    }
    assert(v@.take(v@.len() as int) =~= v@);
    false
}

/// The first `n` bytes of `s` when it is longer than that, else all of `s`
/// (`&s[..n]` under a length test); `n` must then fall between characters.
pub open spec fn byte_prefix(s: Seq<char>, n: int) -> Seq<char> {
    if utf8_len(s) > n {
        s.take(char_pos(s, n))
    } else {
        s
    }
}

/// The first `n` bytes of `v` when it is longer than that, else all of it.
pub fn byte_prefix_string(v: &[char], n: usize) -> (r: String)
    requires
        n <= usize::MAX - 4,
        utf8_len(v@) > n ==> is_boundary(v@, n as int),
    ensures
        r@ == byte_prefix(v@, n as int),
{
    if utf8_len_exceeds(v, n) {
        let k = char_index(v, n);
        assert(v@.take(k as int) =~= v@.subrange(0, k as int));
        from_chars(&v[0..k])
    } else {
        from_chars(v)
    }
}

} // verus!
