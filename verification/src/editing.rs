//! The input line: which key does what, and how each editing key changes
//! the text and the cursor. Text is handled as characters; the cursor of
//! the application is the byte offset of a character index.

use vstd::prelude::*;

use crate::event::{KeyCode, KeyPress, CONTROL};
use crate::text::{
    concat_chars, last_ws, lemma_last_ws, lemma_trim_end_is_prefix, lemma_utf8_len_cut,
    lemma_utf8_len_insert, rfind_whitespace, trim_end_len, trim_end_seq, utf8_len, utf8_width,
};

verus! {

/// What a key press asks for.
#[derive(Debug, Clone, Copy, PartialEq, Eq, Structural)]
pub enum KeyAction {
    /// Exit the application.
    Quit,
    /// Cancel the reply being streamed, if any.
    Cancel,
    /// Clear the conversation from the screen.
    ClearScreen,
    /// Send the input line.
    Submit,
    /// Scroll towards older messages by this many lines.
    ScrollUp(u16),
    /// Scroll towards newer messages by this many lines.
    ScrollDown(u16),
    /// Cursor to the start of the line.
    Home,
    /// Cursor to the end of the line (and scroll down ten lines).
    End,
    /// Delete the word before the cursor.
    DeleteWordBack,
    /// Delete from the cursor to the end of the line.
    KillToEnd,
    /// Insert a character at the cursor.
    Insert(char),
    /// Delete the character before the cursor.
    Backspace,
    /// Delete the character at the cursor.
    Delete,
    /// Cursor one character left.
    Left,
    /// Cursor one character right.
    Right,
    /// Nothing.
    Ignore,
}

/// The key is `c` with Control as the only modifier.
pub open spec fn ctrl_char(k: KeyPress, c: char) -> bool {
    k.modifiers == CONTROL && k.code == KeyCode::Char(c)
}

/// What key `k` asks for, given whether the agent is idle. The first rule
/// that applies wins.
pub open spec fn key_action_spec(k: KeyPress, idle: bool) -> KeyAction {
    if ctrl_char(k, 'd') {
        KeyAction::Quit
    } else if ctrl_char(k, 'c') {
        KeyAction::Cancel
    } else if ctrl_char(k, 'l') {
        KeyAction::ClearScreen
    } else if k.code == KeyCode::Enter && idle {
        KeyAction::Submit
    } else if ctrl_char(k, 'u') {
        KeyAction::ScrollUp(10)
    } else if k.code == KeyCode::PageUp {
        KeyAction::ScrollUp(20)
    } else if k.code == KeyCode::PageDown {
        KeyAction::ScrollDown(20)
    } else if ctrl_char(k, 'a') || k.code == KeyCode::Home {
        KeyAction::Home
    } else if ctrl_char(k, 'e') || k.code == KeyCode::End {
        KeyAction::End
    } else if ctrl_char(k, 'w') {
        KeyAction::DeleteWordBack
    } else if ctrl_char(k, 'k') {
        KeyAction::KillToEnd
    } else {
        match k.code {
            KeyCode::Char(c) => KeyAction::Insert(c),
            KeyCode::Backspace => KeyAction::Backspace,
            KeyCode::Delete => KeyAction::Delete,
            KeyCode::Left => KeyAction::Left,
            KeyCode::Right => KeyAction::Right,
            _ => KeyAction::Ignore,
        }
    }
}

/// Decides what key `k` asks for: Ctrl+D quits, Ctrl+C cancels the reply
/// being streamed, Ctrl+L clears the screen, Enter submits while the agent
/// is idle, Ctrl+U/PageUp/PageDown scroll, Ctrl+A/Home and
/// Ctrl+E/End move to the ends, Ctrl+W and Ctrl+K delete, and plain
/// characters, Backspace, Delete, Left and Right edit.
pub fn key_action(k: KeyPress, idle: bool) -> (a: KeyAction)
    ensures
        a == key_action_spec(k, idle),
{
    let ctrl = k.modifiers == CONTROL;
    let ch: Option<char> = match k.code {
        KeyCode::Char(c) => Some(c),
        _ => None,
    };
    let ctrl_is = |c: char| -> (b: bool)
        ensures
            b == ctrl_char(k, c),
        { ctrl && ch == Some(c) };
    if ctrl_is('d') {
        KeyAction::Quit
    } else if ctrl_is('c') {
        KeyAction::Cancel
    } else if ctrl_is('l') {
        KeyAction::ClearScreen
    } else if k.code == KeyCode::Enter && idle {
        KeyAction::Submit
    } else if ctrl_is('u') {
        KeyAction::ScrollUp(10)
    } else if k.code == KeyCode::PageUp {
        KeyAction::ScrollUp(20)
    } else if k.code == KeyCode::PageDown {
        KeyAction::ScrollDown(20)
    } else if ctrl_is('a') || k.code == KeyCode::Home {
        KeyAction::Home
    } else if ctrl_is('e') || k.code == KeyCode::End {
        KeyAction::End
    } else if ctrl_is('w') {
        KeyAction::DeleteWordBack
    } else if ctrl_is('k') {
        KeyAction::KillToEnd
    } else {
        match k.code {
            KeyCode::Char(c) => KeyAction::Insert(c),
            KeyCode::Backspace => KeyAction::Backspace,
            KeyCode::Delete => KeyAction::Delete,
            KeyCode::Left => KeyAction::Left,
            KeyCode::Right => KeyAction::Right,
            _ => KeyAction::Ignore,
        }
    }
}


/// Where Ctrl+W leaves the cursor, as a character index into `before` (the
/// text before the cursor): just after the last whitespace character that
/// precedes the trailing word, or the start of the line. None when that
/// whitespace character takes more than one byte: the byte after its start
/// is then not a character boundary, and the line cannot be cut there.
pub open spec fn word_start(before: Seq<char>) -> Option<int> {
    let t = trim_end_seq(before);
    match last_ws(t) {
        None => Some(0),
        Some(j) => if utf8_width(t[j]) == 1 {
            Some(j + 1)
        } else {
            None
        },
    }
}

/// The editing action can be carried out on `s` with the cursor before
/// character `k`.
pub open spec fn edit_allowed(s: Seq<char>, k: int, a: KeyAction) -> bool {
    a is DeleteWordBack ==> word_start(s.take(k)) is Some
}

/// The text and the cursor (a character index) after action `a` on text
/// `s` with the cursor before character `k`.
pub open spec fn edit_spec(s: Seq<char>, k: int, a: KeyAction) -> (Seq<char>, int) {
    match a {
        KeyAction::Home => (s, 0),
        KeyAction::End => (s, s.len() as int),
        KeyAction::DeleteWordBack => {
            let w = word_start(s.take(k))->0;
            (s.take(w) + s.skip(k), w)
        },
        KeyAction::KillToEnd => (s.take(k), k),
        KeyAction::Insert(c) => (s.take(k).push(c) + s.skip(k), k + 1),
        KeyAction::Backspace => if k > 0 {
            (s.take(k - 1) + s.skip(k), k - 1)
        } else {
            (s, k)
        },
        KeyAction::Delete => if k < s.len() {
            (s.take(k) + s.skip(k + 1), k)
        } else {
            (s, k)
        },
        KeyAction::Left => (s, if k > 0 {
            k - 1
        } else {
            k
        }),
        KeyAction::Right => (s, if k < s.len() {
            k + 1
        } else {
            k
        }),
        _ => (s, k),
    }
}

/// Character index where Ctrl+W cuts the text before the cursor.
fn word_start_index(before: &[char]) -> (w: usize)
    requires
        word_start(before@) is Some,
    ensures
        w == word_start(before@)->0,
        w <= before@.len(),
{
    let e = trim_end_len(before);
    let t = &before[0..e];
    assert(t@ =~= trim_end_seq(before@));
    match rfind_whitespace(t) {
        None => 0,
        Some(j) => {
            proof {
                lemma_last_ws(t@);
            }
            j + 1
        },
    }
}

/// Applies an editing action to text `v` with the cursor before character
/// `k`: the new text and the new cursor character index.
pub fn edit_line(v: &[char], k: usize, a: KeyAction) -> (r: (Vec<char>, usize))
    requires
        k <= v@.len(),
        edit_allowed(v@, k as int, a),
    ensures
        r.0@ == edit_spec(v@, k as int, a).0,
        r.1 == edit_spec(v@, k as int, a).1,
        r.1 <= r.0@.len(),
{
    let n = v.len();
    let empty: Vec<char> = Vec::new();
    assert(v@.take(k as int) =~= v@.subrange(0, k as int));
    assert(v@.skip(k as int) =~= v@.subrange(k as int, n as int));
    match a {
        KeyAction::Home => (concat_chars(v, empty.as_slice()), 0),
        KeyAction::End => (concat_chars(v, empty.as_slice()), n),
        KeyAction::DeleteWordBack => {
            let w = word_start_index(&v[0..k]);
            proof {
                lemma_trim_end_is_prefix(v@.take(k as int));
            }
            assert(v@.take(w as int) =~= v@.subrange(0, w as int));
            (concat_chars(&v[0..w], &v[k..n]), w)
        },
        KeyAction::KillToEnd => (concat_chars(&v[0..k], empty.as_slice()), k),
        KeyAction::Insert(c) => {
            let mut head = concat_chars(&v[0..k], empty.as_slice());
            head.push(c);
            let k1 = head.len();
            (concat_chars(head.as_slice(), &v[k..n]), k1)
        },
        KeyAction::Backspace => {
            if k > 0 {
                assert(v@.take(k - 1) =~= v@.subrange(0, k - 1));
                (concat_chars(&v[0..k - 1], &v[k..n]), k - 1)
            } else {
                (concat_chars(v, empty.as_slice()), k)
            }
        },
        KeyAction::Delete => {
            if k < n {
                assert(v@.skip(k + 1) =~= v@.subrange(k + 1, n as int));
                (concat_chars(&v[0..k], &v[k + 1..n]), k)
            } else {
                (concat_chars(v, empty.as_slice()), k)
            }
        },
        KeyAction::Left => (concat_chars(v, empty.as_slice()), if k > 0 {
            k - 1
        } else {
            k
        }),
        KeyAction::Right => (concat_chars(v, empty.as_slice()), if k < n {
            k + 1
        } else {
            k
        }),
        _ => (concat_chars(v, empty.as_slice()), k),
    }
}


/// Bytes an editing action may add to the text.
pub open spec fn growth(a: KeyAction) -> nat {
    match a {
        KeyAction::Insert(c) => utf8_width(c),
        _ => 0,
    }
}

/// An edit keeps the cursor within the text and adds at most `growth(a)` bytes.
pub proof fn lemma_edit_bounds(s: Seq<char>, k: int, a: KeyAction)
    requires
        0 <= k <= s.len(),
        edit_allowed(s, k, a),
    ensures
        0 <= edit_spec(s, k, a).1 <= edit_spec(s, k, a).0.len(),
        utf8_len(edit_spec(s, k, a).0) <= utf8_len(s) + growth(a),
{
    match a {
        KeyAction::DeleteWordBack => {
            let before = s.take(k);
            lemma_trim_end_is_prefix(before);
            lemma_last_ws(trim_end_seq(before));
            let w = word_start(before)->0;
            lemma_utf8_len_cut(s, w, k);
        },
        KeyAction::KillToEnd => {
            lemma_utf8_len_cut(s, k, s.len() as int);
            assert(s.take(k) + s.skip(s.len() as int) =~= s.take(k));
        },
        KeyAction::Insert(c) => {
            lemma_utf8_len_insert(s, k, c);
        },
        KeyAction::Backspace => {
            if k > 0 {
                lemma_utf8_len_cut(s, k - 1, k);
            }
        },
        KeyAction::Delete => {
            if k < s.len() {
                lemma_utf8_len_cut(s, k, k + 1);
            }
        },
        _ => {},
    }
}

} // verus!
