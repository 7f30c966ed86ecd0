//! Properties that hold across operations of the library.

use vstd::prelude::*;
use vstd::utf8::{
    decode_utf8, decode_utf8_encode_utf8, encode_utf8, encode_utf8_decode_utf8, valid_utf8,
    valid_utf8_concat,
};

use crate::api::SessionInfo;
use crate::app::{
    api_view, scrolled, delta_post, lines_of, scroll_post, stream_done_post, App, ChatLine, Effect, Role,
};
use crate::commands::{command_of, Command};
use crate::editing::{edit_spec, key_action_spec, word_start, KeyAction};
use crate::event::{
    reader_step_spec, KeyCode, KeyPress, ReaderStep, TerminalInput, Usage, CONTROL, SHIFT,
};
use crate::sessions::{role_of, session_display};
use crate::event::AppEvent;
use crate::keys::{event_post, key_post};
use crate::stream::{
    drain, drain_from, lemma_drain_concat, lemma_drain_no_newline, sse_line_spec, usage_of, without_nul, StreamUsage,
};
use crate::text::{
    decimal, has_prefix, digit_char, first_index, is_ws, lemma_first_index, last_ws, lemma_char_pos, lemma_last_ws,
    lemma_trim_end_shape, lemma_trim_end_unique, lemma_utf8_len_take_le, trim_end_char, trim_end_seq,
    utf8_len,
};

verus! {

/// A key press without modifiers.
pub open spec fn plain(code: KeyCode) -> KeyPress {
    KeyPress { modifiers: 0, code }
}

/// The cursor of a well-formed application lies within the input: at most
/// its length in bytes.
pub proof fn law_cursor_within_input(app: App)
    requires
        app.wf(),
    ensures
        app.cursor <= utf8_len(app.input@),
        0 <= app.cursor_pos() <= app.input@.len(),
        utf8_len(app.input@.take(app.cursor_pos())) == app.cursor,
{
    lemma_utf8_len_take_le(app.input@, app.cursor_pos());
}

/// Typing a character and then pressing Backspace gives back the input
/// and the cursor as they were.
pub proof fn law_type_then_backspace(a0: App, a1: App, a2: App, c: char, e1: Effect, e2: Effect)
    requires
        a0.wf(),
        key_post(a0, plain(KeyCode::Char(c)), a1, e1),
        key_post(a1, plain(KeyCode::Backspace), a2, e2),
    ensures
        a2.input@ == a0.input@,
        a2.cursor == a0.cursor,
        a2 == (App { input: a2.input, ..a0 }),
{
    let s = a0.input@;
    let k = a0.cursor_pos();
    law_cursor_within_input(a0);
    assert(key_action_spec(plain(KeyCode::Char(c)), a0.status is Idle) == KeyAction::Insert(c));
    let s1 = s.take(k).push(c) + s.skip(k);
    assert(a1.input@ == s1);
    assert(s1.take(k + 1) =~= s.take(k).push(c));
    lemma_char_pos(s1, k + 1);
    assert(a1.cursor_pos() == k + 1);
    assert(key_action_spec(plain(KeyCode::Backspace), a1.status is Idle) == KeyAction::Backspace);
    assert(s1.take(k) + s1.skip(k + 1) =~= s);
    assert(a2.input@ =~= s);
}


/// Moving the cursor left and then right (when it is not at the start)
/// brings it back, and leaves the input as it was.
pub proof fn law_left_then_right(a0: App, a1: App, a2: App, e1: Effect, e2: Effect)
    requires
        a0.wf(),
        a0.cursor > 0,
        key_post(a0, plain(KeyCode::Left), a1, e1),
        key_post(a1, plain(KeyCode::Right), a2, e2),
    ensures
        a2.input@ == a0.input@,
        a2 == (App { input: a2.input, ..a0 }),
{
    let s = a0.input@;
    let k = a0.cursor_pos();
    law_cursor_within_input(a0);
    assert(k > 0) by {
        if k == 0 {
            assert(s.take(0) =~= Seq::<char>::empty());
        }
    }
    assert(key_action_spec(plain(KeyCode::Left), a0.status is Idle) == KeyAction::Left);
    lemma_char_pos(s, k - 1);
    assert(key_action_spec(plain(KeyCode::Right), a1.status is Idle) == KeyAction::Right);
    lemma_char_pos(s, k);
}

/// Home puts the cursor at the start of the input, End at its end; the
/// text stays as it was.
pub proof fn law_home_and_end(a0: App, a1: App, a2: App, e1: Effect, e2: Effect)
    requires
        a0.wf(),
        key_post(a0, plain(KeyCode::Home), a1, e1),
        key_post(a0, plain(KeyCode::End), a2, e2),
    ensures
        a1.cursor == 0,
        a1.input@ == a0.input@,
        a2.cursor == utf8_len(a0.input@),
        a2.input@ == a0.input@,
{
    assert(key_action_spec(plain(KeyCode::Home), a0.status is Idle) == KeyAction::Home);
    assert(key_action_spec(plain(KeyCode::End), a0.status is Idle) == KeyAction::End);
    assert(a0.input@.take(0) =~= Seq::<char>::empty());
    assert(a0.input@.take(a0.input@.len() as int) =~= a0.input@);
}

/// PageUp followed by PageDown returns to the same scroll offset, unless
/// the offset was within twenty lines of its upper limit.
pub proof fn law_page_up_then_down(a0: App, a1: App, a2: App, e1: Effect, e2: Effect)
    requires
        a0.scroll_offset <= u16::MAX - 20,
        key_post(a0, plain(KeyCode::PageUp), a1, e1),
        key_post(a1, plain(KeyCode::PageDown), a2, e2),
    ensures
        a2 == a0,
{
    assert(key_action_spec(plain(KeyCode::PageUp), a0.status is Idle) == KeyAction::ScrollUp(20));
    assert(key_action_spec(plain(KeyCode::PageDown), a1.status is Idle) == KeyAction::ScrollDown(20));
}

/// Scrolling up by `d` and then down by `d` returns to the same offset,
/// unless the offset was within `d` lines of its upper limit; both
/// scrolls are counted.
pub proof fn law_scroll_round_trip(a0: App, a1: App, a2: App, d: i16)
    requires
        0 < d,
        a0.scroll_offset + d <= u16::MAX,
        a0.mouse_events + 2 <= u64::MAX,
        scroll_post(a0, a1, d as int),
        scroll_post(a1, a2, -d),
    ensures
        a2.scroll_offset == a0.scroll_offset,
        a2.mouse_events == a0.mouse_events + 2,
        a2 == (App { mouse_events: a2.mouse_events, ..a0 }),
{
}

/// Text that arrives in pieces `ds[0]`, ..., `ds[n-1]` after nothing was
/// pending, and then ends with `usage`, becomes one assistant message
/// holding the pieces joined in order (when they hold any text).
pub proof fn law_streamed_pieces_become_one_message(
    states: Seq<App>,
    ds: Seq<Seq<char>>,
    fin: App,
    usage: Option<crate::event::Usage>,
)
    requires
        states.len() == ds.len() + 1,
        states[0].pending_response@.len() == 0,
        forall|i: int| 0 <= i < ds.len() ==> delta_post(#[trigger] states[i], states[i + 1], ds[i]),
        stream_done_post(states[ds.len() as int], fin, usage),
    ensures
        lines_of(fin.messages@) == if joined(ds).len() > 0 {
            lines_of(states[0].messages@).push(
                ChatLine { role: Role::Assistant, content: joined(ds), tokens: usage },
            )
        } else {
            lines_of(states[0].messages@)
        },
        fin.pending_response@.len() == 0,
        fin.status is Idle,
{
    let n = ds.len() as int;
    lemma_pieces_accumulate(states, ds, n);
    assert(ds.take(n) =~= ds);
    assert(states[n].pending_response@ == joined(ds));
    assert(lines_of(states[n].messages@) == lines_of(states[0].messages@));
}

/// The pieces joined in order.
pub open spec fn joined<A>(ds: Seq<Seq<A>>) -> Seq<A>
    decreases ds.len(),
{
    if ds.len() == 0 {
        Seq::<A>::empty()
    } else {
        joined(ds.drop_last()) + ds.last()
    }
}

/// After `k` pieces, the pending text is their join and the conversation
/// is unchanged.
proof fn lemma_pieces_accumulate(states: Seq<App>, ds: Seq<Seq<char>>, k: int)
    requires
        states.len() == ds.len() + 1,
        0 <= k <= ds.len(),
        states[0].pending_response@.len() == 0,
        forall|i: int| 0 <= i < ds.len() ==> delta_post(#[trigger] states[i], states[i + 1], ds[i]),
    ensures
        states[k].pending_response@ == joined(ds.take(k)),
        states[k].messages == states[0].messages,
    decreases k,
{
    if k == 0 {
        assert(ds.take(0) =~= Seq::<Seq<char>>::empty());
    } else {
        lemma_pieces_accumulate(states, ds, k - 1);
        assert(delta_post(states[k - 1], states[k], ds[k - 1]));
        assert(ds.take(k).drop_last() =~= ds.take(k - 1));
    }
}

/// Ctrl+C never quits: while a reply is streaming it cancels it (the agent
/// is idle again and the request is to be aborted), and otherwise it does
/// nothing. Ctrl+D quits.
pub proof fn law_ctrl_c_cancels_ctrl_d_quits(a0: App, a1: App, e1: Effect, a2: App, e2: Effect)
    requires
        key_post(a0, KeyPress { modifiers: crate::event::CONTROL, code: KeyCode::Char('c') }, a1, e1),
        key_post(a0, KeyPress { modifiers: crate::event::CONTROL, code: KeyCode::Char('d') }, a2, e2),
    ensures
        a1.quit == a0.quit,
        a0.status is Streaming ==> a1.status is Idle && e1 == Effect::CancelStream,
        !(a0.status is Streaming) ==> a1 == a0 && e1 == Effect::Nothing,
        a2.quit,
{
}

/// A streamed reply that arrives as `d` on top of what was pending, and
/// then ends with `usage`, becomes one assistant message holding all of
/// its text (when there is any).
pub proof fn law_streamed_reply_is_kept(a0: App, a1: App, a2: App, d: Seq<char>, usage: Option<crate::event::Usage>)
    requires
        a1.pending_response@ == a0.pending_response@ + d,
        a1.messages == a0.messages,
        stream_done_post(a1, a2, usage),
    ensures
        lines_of(a2.messages@) == if (a0.pending_response@ + d).len() > 0 {
            lines_of(a0.messages@).push(
                ChatLine { role: Role::Assistant, content: a0.pending_response@ + d, tokens: usage },
            )
        } else {
            lines_of(a0.messages@)
        },
        a2.pending_response@.len() == 0,
        a2.status is Idle,
{
}

/// The messages sent to the server are the user and assistant messages
/// only: never more than the conversation holds, each with role `user` or
/// `assistant`.
pub proof fn law_request_roles(msgs: Seq<ChatLine>)
    ensures
        api_view(msgs).len() <= msgs.len(),
        forall|i: int|
            0 <= i < api_view(msgs).len() ==> (#[trigger] api_view(msgs)[i]).0 == "user"@
                || api_view(msgs)[i].0 == "assistant"@,
    decreases msgs.len(),
{
    if msgs.len() > 0 {
        law_request_roles(msgs.drop_last());
    }
}

/// A new user message ends the request: the messages sent after it are
/// those sent before it followed by the message as a `user` message.
pub proof fn law_request_ends_with_new_message(msgs: Seq<ChatLine>, text: Seq<char>)
    ensures
        api_view(msgs.push(ChatLine { role: Role::User, content: text, tokens: None })) == api_view(
            msgs,
        ).push(("user"@, text)),
{
    assert(msgs.push(ChatLine { role: Role::User, content: text, tokens: None }).drop_last() =~= msgs);
}


/// Trimming trailing slashes from a base URL leaves no trailing slash, and
/// removes nothing but slashes.
pub proof fn law_base_url_trimmed(s: Seq<char>)
    ensures
        trim_end_char(s, '/').len() <= s.len(),
        trim_end_char(s, '/').len() > 0 ==> trim_end_char(s, '/').last() != '/',
        s == trim_end_char(s, '/') + Seq::new((s.len() - trim_end_char(s, '/').len()) as nat, |i: int| '/'),
    decreases s.len(),
{
    lemma_trim_end_char_shape(s, '/');
    if s.len() > 0 && s.last() == '/' {
        law_base_url_trimmed(s.drop_last());
    }
}

/// The number that a string of decimal digits stands for.
pub open spec fn digits_value(d: Seq<char>) -> nat
    decreases d.len(),
{
    if d.len() == 0 {
        0
    } else {
        digits_value(d.drop_last()) * 10 + ((d.last() as u32) - 48) as nat
    }
}

/// Decimal rendering is faithful: it is made of digits, has no leading
/// zero (but for zero itself), and reads back as the number.
pub proof fn law_decimal_reads_back(n: nat)
    ensures
        decimal(n).len() > 0,
        forall|i: int| 0 <= i < decimal(n).len() ==> '0' <= #[trigger] decimal(n)[i] <= '9',
        decimal(n)[0] == '0' ==> n == 0,
        digits_value(decimal(n)) == n,
    decreases n,
{
    if n >= 10 {
        law_decimal_reads_back(n / 10);
        let d = decimal(n);
        assert(d.drop_last() =~= decimal(n / 10));
        assert(d.last() == digit_char(n % 10));
        assert(digit_char(n % 10) as u32 == 48 + n % 10);
        assert(digits_value(d) == digits_value(decimal(n / 10)) * 10 + n % 10);
        assert((n / 10) * 10 + n % 10 == n);
    } else {
        assert(digit_char(n) as u32 == 48 + n);
        assert(decimal(n).drop_last() =~= Seq::<char>::empty());
        assert(digits_value(Seq::<char>::empty()) == 0);
        assert(decimal(n).last() == digit_char(n));
    }
}


/// Ctrl+W removes one word before the cursor together with the whitespace
/// between it and the cursor: the text after the cursor stays, the cursor
/// moves to where the removed part began (the start of the line or just
/// after whitespace), and the removed part is a run without whitespace
/// followed by whitespace only.
pub proof fn law_delete_word_back(s: Seq<char>, k: int)
    requires
        0 <= k <= s.len(),
        word_start(s.take(k)) is Some,
    ensures
        ({
            let (s2, w) = edit_spec(s, k, KeyAction::DeleteWordBack);
            let removed = s.subrange(w, k);
            let word = trim_end_seq(removed);
            &&& 0 <= w <= k
            &&& s2 == s.take(w) + s.skip(k)
            &&& (w == 0 || is_ws(s[w - 1]))
            &&& forall|i: int| 0 <= i < word.len() ==> !is_ws(#[trigger] removed[i])
            &&& forall|i: int| word.len() <= i < removed.len() ==> is_ws(#[trigger] removed[i])
        }),
{
    let before = s.take(k);
    let t = trim_end_seq(before);
    lemma_trim_end_shape(before);
    lemma_last_ws(t);
    let m = t.len() as int;
    let w = word_start(before)->0;
    assert(0 <= w <= m) by {
        if last_ws(t) is None {
        }
    }
    let removed = s.subrange(w, k);
    assert forall|i: int| (m - w) <= i < removed.len() implies is_ws(#[trigger] removed[i]) by {
        assert(removed[i] == before[w + i]);
    }
    if m > w {
        assert(removed[m - w - 1] == t[m - 1]);
    }
    lemma_trim_end_unique(removed, m - w);
    lemma_trim_end_shape(removed);
    let word = trim_end_seq(removed);
    assert forall|i: int| 0 <= i < word.len() implies !is_ws(#[trigger] removed[i]) by {
        assert(removed[i] == t[w + i]);
    }
    if w > 0 {
        assert(s[w - 1] == t[w - 1]);
    }
}

/// Moving the cursor right and then left (when it is not at the end)
/// brings it back, and leaves the input as it was.
pub proof fn law_right_then_left(a0: App, a1: App, a2: App, e1: Effect, e2: Effect)
    requires
        a0.wf(),
        a0.cursor < utf8_len(a0.input@),
        key_post(a0, plain(KeyCode::Right), a1, e1),
        key_post(a1, plain(KeyCode::Left), a2, e2),
    ensures
        a2.input@ == a0.input@,
        a2 == (App { input: a2.input, ..a0 }),
{
    let s = a0.input@;
    let k = a0.cursor_pos();
    law_cursor_within_input(a0);
    assert(k < s.len()) by {
        if k == s.len() {
            assert(s.take(k) =~= s);
        }
    }
    assert(key_action_spec(plain(KeyCode::Right), a0.status is Idle) == KeyAction::Right);
    lemma_char_pos(s, k + 1);
    assert(key_action_spec(plain(KeyCode::Left), a1.status is Idle) == KeyAction::Left);
    lemma_char_pos(s, k);
}

/// Ctrl+K keeps exactly the text before the cursor, and the cursor.
pub proof fn law_kill_to_end(a0: App, a1: App, e: Effect)
    requires
        a0.wf(),
        key_post(a0, KeyPress { modifiers: crate::event::CONTROL, code: KeyCode::Char('k') }, a1, e),
    ensures
        a1.input@ == a0.input@.take(a0.cursor_pos()),
        a1.cursor == a0.cursor,
{
    law_cursor_within_input(a0);
    let k = a0.cursor_pos();
    assert(a0.input@.take(k).take(k) =~= a0.input@.take(k));
}


/// Taking a line out of the event-stream buffer loses nothing but its line
/// feed and the carriage returns at its end: the buffer was the line, some
/// carriage returns, a line feed and the rest, and the line holds no line
/// feed.
pub proof fn law_next_line_loses_nothing(buf: Seq<char>)
    requires
        first_index(buf, '\n') is Some,
    ensures
        ({
            let p = first_index(buf, '\n')->0;
            let line = trim_end_char(buf.take(p), '\r');
            let rest = buf.skip(p + 1);
            &&& line.len() <= p
            &&& buf == line + Seq::new((p - line.len()) as nat, |i: int| '\r') + seq!['\n'] + rest
            &&& forall|i: int| 0 <= i < line.len() ==> #[trigger] line[i] != '\n'
        }),
{
    let p = first_index(buf, '\n')->0;
    lemma_first_index(buf, '\n');
    let raw = buf.take(p);
    lemma_trim_end_char_shape(raw, '\r');
    let line = trim_end_char(raw, '\r');
    assert(raw =~= line + Seq::new((p - line.len()) as nat, |i: int| '\r'));
    assert(buf =~= raw + seq!['\n'] + buf.skip(p + 1));
    assert forall|i: int| 0 <= i < line.len() implies #[trigger] line[i] != '\n' by {
        assert(line[i] == raw[i]);
    }
}

/// Trimming a character off the end keeps a prefix, followed in the
/// untrimmed sequence by that character only.
proof fn lemma_trim_end_char_shape(s: Seq<char>, c: char)
    ensures
        trim_end_char(s, c).len() <= s.len(),
        s == trim_end_char(s, c) + Seq::new((s.len() - trim_end_char(s, c).len()) as nat, |i: int| c),
    decreases s.len(),
{
    if s.len() > 0 && s.last() == c {
        let t = s.drop_last();
        lemma_trim_end_char_shape(t, c);
        let r = trim_end_char(s, c);
        let m = (t.len() - r.len()) as nat;
        assert(s =~= t.push(c));
        assert(Seq::new(m + 1, |i: int| c) =~= Seq::new(m, |i: int| c).push(c));
        assert(s =~= r + Seq::new((s.len() - r.len()) as nat, |i: int| c));
    } else {
        assert(s =~= s + Seq::new(0, |i: int| c));
    }
}


/// While a reply is streaming (or the agent is otherwise busy), Enter does
/// nothing: the input line is kept for later.
pub proof fn law_enter_waits_while_busy(a0: App, a1: App, e: Effect)
    requires
        !(a0.status is Idle),
        key_post(a0, plain(KeyCode::Enter), a1, e),
    ensures
        a1 == a0,
        e == Effect::Nothing,
{
    assert(key_action_spec(plain(KeyCode::Enter), false) == KeyAction::Ignore);
}


/// Only key presses touch the input line: every other event leaves the
/// text and the cursor as they were.
pub proof fn law_only_keys_edit_input(a0: App, ev: AppEvent, a1: App, e: Effect)
    requires
        !(ev is Key),
        event_post(a0, ev, a1, e),
    ensures
        a1.input == a0.input,
        a1.cursor == a0.cursor,
        e == Effect::Nothing,
{
}

/// Once a reply has ended, ending it again adds no message.
pub proof fn law_second_end_adds_nothing(
    a0: App,
    a1: App,
    a2: App,
    u1: Option<crate::event::Usage>,
    u2: Option<crate::event::Usage>,
)
    requires
        stream_done_post(a0, a1, u1),
        stream_done_post(a1, a2, u2),
    ensures
        lines_of(a2.messages@) == lines_of(a1.messages@),
{
}


/// The lines the event-stream reader has taken, and the text it still
/// holds, after each chunk of text in turn was pushed (dropping NUL
/// characters) and every complete line was taken out.
pub open spec fn fed(chunks: Seq<Seq<char>>) -> (Seq<Seq<char>>, Seq<char>)
    decreases chunks.len(),
{
    if chunks.len() == 0 {
        (Seq::empty(), Seq::empty())
    } else {
        let before = fed(chunks.drop_last());
        let now = drain_from(without_nul(chunks.last()), before.1);
        (before.0 + now.0, now.1)
    }
}

/// Dropping NUL characters works piece by piece.
proof fn lemma_without_nul_concat(a: Seq<char>, b: Seq<char>)
    ensures
        without_nul(a + b) == without_nul(a) + without_nul(b),
    decreases b.len(),
{
    if b.len() == 0 {
        assert(a + b =~= a);
        assert(without_nul(a) + without_nul(b) =~= without_nul(a));
    } else {
        lemma_without_nul_concat(a, b.drop_last());
        assert((a + b).drop_last() =~= a + b.drop_last());
        assert((a + b).last() == b.last());
        if b.last() == '\0' {
        } else {
            assert(without_nul(a) + without_nul(b) =~= (without_nul(a) + without_nul(b.drop_last())).push(
                b.last(),
            ));
        }
    }
}

/// One step of the reader: pushing text onto a buffer that holds no line
/// feed (as it is after every line was taken) and taking out every
/// complete line drains the pushed text on top of the unfinished line.
pub proof fn law_push_then_drain(buf: Seq<char>, text: Seq<char>)
    requires
        forall|j: int| 0 <= j < buf.len() ==> buf[j] != '\n',
    ensures
        drain(buf + without_nul(text)) == drain_from(without_nul(text), buf),
{
    lemma_drain_concat(buf, without_nul(text), Seq::empty());
    lemma_drain_no_newline(buf, Seq::empty(), buf.len() as int);
    assert(buf.skip(buf.len() as int) =~= Seq::<char>::empty());
    assert(Seq::<char>::empty() + buf.take(buf.len() as int) =~= buf);
    assert(Seq::<Seq<char>>::empty() + drain_from(without_nul(text), buf).0 =~= drain_from(
        without_nul(text),
        buf,
    ).0);
}

/// The lines of a reply do not depend on how its text was cut into chunks:
/// whatever the chunking, the reader takes out the lines of the whole text
/// (without NUL characters), and holds the same unfinished last line.
pub proof fn law_lines_ignore_chunking(chunks: Seq<Seq<char>>)
    ensures
        fed(chunks) == drain(without_nul(joined(chunks))),
    decreases chunks.len(),
{
    if chunks.len() == 0 {
        assert(without_nul(joined(chunks)) =~= Seq::<char>::empty());
    } else {
        let init = chunks.drop_last();
        law_lines_ignore_chunking(init);
        lemma_without_nul_concat(joined(init), chunks.last());
        lemma_drain_concat(without_nul(joined(init)), without_nul(chunks.last()), Seq::empty());
    }
}

/// Decoding valid UTF-8 works chunk by chunk.
proof fn lemma_decode_joined(chunks: Seq<Seq<u8>>)
    requires
        forall|i: int| 0 <= i < chunks.len() ==> valid_utf8(#[trigger] chunks[i]),
    ensures
        valid_utf8(joined(chunks)),
        decode_utf8(joined(chunks)) == joined(chunks.map_values(|b: Seq<u8>| decode_utf8(b))),
    decreases chunks.len(),
{
    let texts = chunks.map_values(|b: Seq<u8>| decode_utf8(b));
    if chunks.len() == 0 {
        assert(joined(chunks) =~= Seq::<u8>::empty());
        assert(encode_utf8(Seq::<char>::empty()) =~= Seq::<u8>::empty());
        encode_utf8_decode_utf8(Seq::<char>::empty());
    } else {
        let init = chunks.drop_last();
        assert forall|i: int| 0 <= i < init.len() implies valid_utf8(#[trigger] init[i]) by {
            assert(init[i] == chunks[i]);
        }
        lemma_decode_joined(init);
        assert(valid_utf8(chunks.last()));
        valid_utf8_concat(joined(init), chunks.last());
        let x = decode_utf8(joined(init));
        let y = decode_utf8(chunks.last());
        decode_utf8_encode_utf8(joined(init));
        decode_utf8_encode_utf8(chunks.last());
        lemma_encode_concat(x, y);
        encode_utf8_decode_utf8(x + y);
        assert(texts.drop_last() =~= init.map_values(|b: Seq<u8>| decode_utf8(b)));
    }
}

/// Encoding works piece by piece.
proof fn lemma_encode_concat(x: Seq<char>, y: Seq<char>)
    ensures
        encode_utf8(x + y) == encode_utf8(x) + encode_utf8(y),
    decreases x.len(),
{
    if x.len() == 0 {
        assert(x + y =~= y);
        assert(encode_utf8(x) =~= Seq::<u8>::empty());
        assert(encode_utf8(x) + encode_utf8(y) =~= encode_utf8(y));
    } else {
        lemma_encode_concat(x.drop_first(), y);
        assert((x + y).drop_first() =~= x.drop_first() + y);
        assert((x + y)[0] == x[0]);
        assert(encode_utf8(x + y) =~= encode_utf8(x) + encode_utf8(y));
    }
}

/// The same holds for bytes: when every chunk of the body is valid UTF-8,
/// the reader takes out the lines of the whole body's text, however the
/// body was cut.
pub proof fn law_lines_ignore_byte_chunking(chunks: Seq<Seq<u8>>)
    requires
        forall|i: int| 0 <= i < chunks.len() ==> valid_utf8(#[trigger] chunks[i]),
    ensures
        fed(chunks.map_values(|b: Seq<u8>| decode_utf8(b))) == drain(
            without_nul(decode_utf8(joined(chunks))),
        ),
{
    lemma_decode_joined(chunks);
    law_lines_ignore_chunking(chunks.map_values(|b: Seq<u8>| decode_utf8(b)));
}

/// Each command word of the table, aliases included, names its command:
/// `/quit`, `/exit` and `/q` quit; `/clear` clears; `/new` starts a new
/// session; `/sessions`, `/session` and `/s` list sessions; `/resume` and
/// `/r` resume one; `/model` shows the model; `/approve` and `/deny` answer
/// an approval request; `/help`, `/h` and `/?` show the help.
pub proof fn law_command_table()
    ensures
        command_of("/quit"@) == Command::Quit,
        command_of("/exit"@) == Command::Quit,
        command_of("/q"@) == Command::Quit,
        command_of("/clear"@) == Command::Clear,
        command_of("/new"@) == Command::New,
        command_of("/sessions"@) == Command::Sessions,
        command_of("/session"@) == Command::Sessions,
        command_of("/s"@) == Command::Sessions,
        command_of("/resume"@) == Command::Resume,
        command_of("/r"@) == Command::Resume,
        command_of("/model"@) == Command::Model,
        command_of("/approve"@) == Command::Approve,
        command_of("/deny"@) == Command::Deny,
        command_of("/help"@) == Command::Help,
        command_of("/h"@) == Command::Help,
        command_of("/?"@) == Command::Help,
{
    reveal_strlit("/quit");
    assert("/quit"@.len() == 5 && "/quit"@[1] == 'q');
    reveal_strlit("/exit");
    assert("/exit"@.len() == 5 && "/exit"@[1] == 'e');
    reveal_strlit("/q");
    assert("/q"@.len() == 2 && "/q"@[1] == 'q');
    reveal_strlit("/clear");
    assert("/clear"@.len() == 6 && "/clear"@[1] == 'c');
    reveal_strlit("/new");
    assert("/new"@.len() == 4 && "/new"@[1] == 'n');
    reveal_strlit("/sessions");
    assert("/sessions"@.len() == 9 && "/sessions"@[1] == 's');
    reveal_strlit("/session");
    assert("/session"@.len() == 8 && "/session"@[1] == 's');
    reveal_strlit("/s");
    assert("/s"@.len() == 2 && "/s"@[1] == 's');
    reveal_strlit("/resume");
    assert("/resume"@.len() == 7 && "/resume"@[1] == 'r');
    reveal_strlit("/r");
    assert("/r"@.len() == 2 && "/r"@[1] == 'r');
    reveal_strlit("/model");
    assert("/model"@.len() == 6 && "/model"@[1] == 'm');
    reveal_strlit("/approve");
    assert("/approve"@.len() == 8 && "/approve"@[1] == 'a');
    reveal_strlit("/deny");
    assert("/deny"@.len() == 5 && "/deny"@[1] == 'd');
    reveal_strlit("/help");
    assert("/help"@.len() == 5 && "/help"@[1] == 'h');
    reveal_strlit("/h");
    assert("/h"@.len() == 2 && "/h"@[1] == 'h');
    reveal_strlit("/?");
    assert("/?"@.len() == 2 && "/?"@[1] == '?');
}

/// A session with a real title is listed by its title; one without a
/// title (or titled `(untitled)`) by its preview when that is not empty;
/// and one with neither as `(empty)`.
pub proof fn law_session_shown_by_title_then_preview(s: SessionInfo)
    ensures
        (s.title is Some && s.title->Some_0@ != "(untitled)"@) ==> session_display(s)
            == s.title->Some_0@,
        ((s.title is None || s.title->Some_0@ == "(untitled)"@) && s.preview is Some
            && s.preview->Some_0@.len() > 0) ==> session_display(s) == s.preview->Some_0@,
        ((s.title is None || s.title->Some_0@ == "(untitled)"@) && (s.preview is None
            || s.preview->Some_0@.len() == 0)) ==> session_display(s) == "(empty)"@,
{
}

/// The usage that ends a reply carries the server's prompt and completion
/// counts as its input and output tokens; a count the server left out is
/// zero; a reply without usage reports none.
pub proof fn law_usage_carries_counts(p: u64, c: u64)
    ensures
        usage_of(Some(StreamUsage { prompt_tokens: Some(p), completion_tokens: Some(c) })) == Some(
            Usage { input_tokens: p, output_tokens: c },
        ),
        usage_of(Some(StreamUsage { prompt_tokens: Some(p), completion_tokens: None })) == Some(
            Usage { input_tokens: p, output_tokens: 0 },
        ),
        usage_of(Some(StreamUsage { prompt_tokens: None, completion_tokens: Some(c) })) == Some(
            Usage { input_tokens: 0, output_tokens: c },
        ),
        usage_of(None) == None::<Usage>,
{
}

/// Every message of the conversation that is not a notice goes into the
/// request, whatever token counts it carries: a user message as `user`,
/// an assistant message as `assistant`; a notice adds nothing.
pub proof fn law_request_keeps_every_reply(
    msgs: Seq<ChatLine>,
    text: Seq<char>,
    tokens: Option<Usage>,
)
    ensures
        api_view(Seq::<ChatLine>::empty()) == Seq::<(Seq<char>, Seq<char>)>::empty(),
        api_view(msgs.push(ChatLine { role: Role::Assistant, content: text, tokens })) == api_view(
            msgs,
        ).push(("assistant"@, text)),
        api_view(msgs.push(ChatLine { role: Role::User, content: text, tokens })) == api_view(
            msgs,
        ).push(("user"@, text)),
        api_view(msgs.push(ChatLine { role: Role::System, content: text, tokens })) == api_view(
            msgs,
        ),
{
    assert(msgs.push(ChatLine { role: Role::Assistant, content: text, tokens }).drop_last() =~= msgs);
    assert(msgs.push(ChatLine { role: Role::User, content: text, tokens }).drop_last() =~= msgs);
    assert(msgs.push(ChatLine { role: Role::System, content: text, tokens }).drop_last() =~= msgs);
}

/// A character key inserts its character whatever modifiers are held
/// (Shift among them), busy or idle, unless it is one of the Control
/// bindings `Ctrl+C`, `Ctrl+D`, `Ctrl+L`, `Ctrl+U`, `Ctrl+A`, `Ctrl+E`,
/// `Ctrl+W` or `Ctrl+K`.
pub proof fn law_char_keys_insert(m: u8, c: char, idle: bool)
    requires
        m != CONTROL || !(c == 'c' || c == 'd' || c == 'l' || c == 'u' || c == 'a' || c == 'e'
            || c == 'w' || c == 'k'),
    ensures
        key_action_spec(KeyPress { modifiers: m, code: KeyCode::Char(c) }, idle) == KeyAction::Insert(
            c,
        ),
{
}

/// A character key pressed without Control, with Shift or any other
/// modifiers, inserts its character.
pub proof fn law_keys_without_control_insert(m: u8, c: char, idle: bool)
    requires
        m & CONTROL == 0,
    ensures
        key_action_spec(KeyPress { modifiers: m, code: KeyCode::Char(c) }, idle) == KeyAction::Insert(
            c,
        ),
        key_action_spec(KeyPress { modifiers: SHIFT, code: KeyCode::Char(c) }, idle)
            == KeyAction::Insert(c),
{
    assert(m & 2u8 == 0u8 ==> m != 2u8) by (bit_vector);
    law_char_keys_insert(m, c, idle);
    law_char_keys_insert(SHIFT, c, idle);
}

/// The key bindings: Ctrl+D quits, Ctrl+C cancels, Ctrl+L clears the
/// screen, Ctrl+U scrolls up ten lines, Ctrl+A and Ctrl+E go to the start
/// and end, Ctrl+W deletes a word and Ctrl+K kills to the end; with any
/// modifiers, Enter submits while idle and does nothing while busy,
/// PageUp and PageDown scroll twenty lines, and Home, End, Backspace,
/// Delete, Left and Right edit.
pub proof fn law_key_bindings(m: u8, idle: bool)
    ensures
        key_action_spec(KeyPress { modifiers: CONTROL, code: KeyCode::Char('d') }, idle) == KeyAction::Quit,
        key_action_spec(KeyPress { modifiers: CONTROL, code: KeyCode::Char('c') }, idle) == KeyAction::Cancel,
        key_action_spec(KeyPress { modifiers: CONTROL, code: KeyCode::Char('l') }, idle)
            == KeyAction::ClearScreen,
        key_action_spec(KeyPress { modifiers: CONTROL, code: KeyCode::Char('u') }, idle)
            == KeyAction::ScrollUp(10),
        key_action_spec(KeyPress { modifiers: CONTROL, code: KeyCode::Char('a') }, idle) == KeyAction::Home,
        key_action_spec(KeyPress { modifiers: CONTROL, code: KeyCode::Char('e') }, idle) == KeyAction::End,
        key_action_spec(KeyPress { modifiers: CONTROL, code: KeyCode::Char('w') }, idle)
            == KeyAction::DeleteWordBack,
        key_action_spec(KeyPress { modifiers: CONTROL, code: KeyCode::Char('k') }, idle)
            == KeyAction::KillToEnd,
        key_action_spec(KeyPress { modifiers: m, code: KeyCode::Enter }, true) == KeyAction::Submit,
        key_action_spec(KeyPress { modifiers: m, code: KeyCode::Enter }, false) == KeyAction::Ignore,
        key_action_spec(KeyPress { modifiers: m, code: KeyCode::PageUp }, idle) == KeyAction::ScrollUp(20),
        key_action_spec(KeyPress { modifiers: m, code: KeyCode::PageDown }, idle)
            == KeyAction::ScrollDown(20),
        key_action_spec(KeyPress { modifiers: m, code: KeyCode::Home }, idle) == KeyAction::Home,
        key_action_spec(KeyPress { modifiers: m, code: KeyCode::End }, idle) == KeyAction::End,
        key_action_spec(KeyPress { modifiers: m, code: KeyCode::Backspace }, idle) == KeyAction::Backspace,
        key_action_spec(KeyPress { modifiers: m, code: KeyCode::Delete }, idle) == KeyAction::Delete,
        key_action_spec(KeyPress { modifiers: m, code: KeyCode::Left }, idle) == KeyAction::Left,
        key_action_spec(KeyPress { modifiers: m, code: KeyCode::Right }, idle) == KeyAction::Right,
        key_action_spec(KeyPress { modifiers: m, code: KeyCode::Other }, idle) == KeyAction::Ignore,
{
}

/// A stored message with role name `user` is a user message, one named
/// `assistant` an assistant message, and any other is shown as a notice.
pub proof fn law_role_names(name: Seq<char>)
    ensures
        role_of("user"@) == Role::User,
        role_of("assistant"@) == Role::Assistant,
        name != "user"@ && name != "assistant"@ ==> role_of(name) == Role::System,
{
    reveal_strlit("user");
    reveal_strlit("assistant");
    assert("user"@.len() == 4 && "assistant"@.len() == 9);
}

/// A line of the event stream that starts with `data: [DONE]` ends the
/// reply; one that starts with `data: ` otherwise carries what follows
/// those six characters; any other line is no data.
pub proof fn law_event_stream_lines(p: Seq<char>, line: Seq<char>)
    ensures
        sse_line_spec("data: [DONE]"@ + p) == Some(None::<Seq<char>>),
        !has_prefix(p, "[DONE]"@) ==> sse_line_spec("data: "@ + p) == Some(Some(p)),
        !has_prefix(line, "data: "@) ==> sse_line_spec(line) == None::<Option<Seq<char>>>,
{
    reveal_strlit("data: [DONE]");
    reveal_strlit("data: ");
    reveal_strlit("[DONE]");
    let done = "data: [DONE]"@;
    let data = "data: "@;
    assert(done.len() == 12 && data.len() == 6 && "[DONE]"@.len() == 6);
    assert((done + p).take(12) =~= done);
    assert(done.take(6) =~= data);
    let l = data + p;
    assert(l.skip(6) =~= p);
    assert(l.take(6) =~= data);
    if has_prefix(l, done) {
        assert(p.take(6) =~= l.take(12).skip(6));
        assert(done.skip(6) =~= "[DONE]"@);
    }
    if has_prefix(line, done) {
        assert(line.take(6) =~= line.take(12).take(6));
    }
}

/// A wheel step up scrolls three lines towards older messages and a step
/// down three towards newer ones; a key is handed on as it is.
pub proof fn law_wheel_scrolls_three_lines(k: KeyPress)
    ensures
        reader_step_spec(TerminalInput::ScrollUp) == ReaderStep::Send(AppEvent::MouseScroll(3)),
        reader_step_spec(TerminalInput::ScrollDown) == ReaderStep::Send(AppEvent::MouseScroll(-3i16)),
        reader_step_spec(TerminalInput::Key(k)) == ReaderStep::Send(AppEvent::Key(k)),
        reader_step_spec(TerminalInput::Failed) == ReaderStep::Stop,
        reader_step_spec(TerminalInput::Ended) == ReaderStep::Stop,
{
}

/// Scrolling moves the offset by the amount asked, stopping at zero and at
/// the largest offset.
pub proof fn law_scroll_saturates(off: u16, d: int)
    ensures
        0 <= off + d <= 65535 ==> scrolled(off, d) == off + d,
        off + d < 0 ==> scrolled(off, d) == 0,
        off + d > 65535 ==> scrolled(off, d) == 65535,
{
}

} // verus!
