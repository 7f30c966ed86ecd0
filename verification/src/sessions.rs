//! Session management results: listing recent sessions, resuming one, and
//! the acknowledgements of approvals and denials.

use vstd::prelude::*;
use vstd::string::*;

use crate::api::{SessionInfo, SessionMessage};
use crate::app::{lines_of, notice, App, ChatLine, ChatMessage, Role};
use crate::text::{
    byte_prefix, byte_prefix_string, contains_chars, contains_seq, decimal, eq_chars, is_boundary,
    push_char, push_decimal, to_chars, utf8_len,
};

verus! {

/// The text of an optional string, or `default` when it is absent.
pub open spec fn or_text(o: Option<String>, default: Seq<char>) -> Seq<char> {
    match o {
        Some(s) => s@,
        None => default,
    }
}

/// `d` right-aligned in a field of two characters (`{:>2}`).
pub open spec fn pad2(d: Seq<char>) -> Seq<char> {
    if d.len() < 2 {
        seq![' '] + d
    } else {
        d
    }
}

/// What a session listing shows for a session: its title, else its
/// preview, else `(empty)`. A session titled `(untitled)` counts as untitled.
pub open spec fn session_display(s: SessionInfo) -> Seq<char> {
    let title = or_text(s.title, "(untitled)"@);
    let preview = or_text(s.preview, Seq::<char>::empty());
    if title != "(untitled)"@ {
        title
    } else if preview.len() > 0 {
        preview
    } else {
        "(empty)"@
    }
}

/// The listing line of the session at index `i` (numbered from one): its
/// number, the first twelve bytes of its id, what it shows, its source
/// and its message count.
pub open spec fn session_line(i: nat, s: SessionInfo) -> Seq<char> {
    "  "@ + pad2(decimal(i + 1)) + ". ["@ + byte_prefix(s.id@, 12) + "] "@ + session_display(s)
        + " ("@ + or_text(s.source, "?"@) + ", "@ + decimal(
        match s.message_count {
            Some(n) => n as nat,
            None => 0,
        },
    ) + " msgs)"@
}

/// Lines joined with line feeds.
pub open spec fn join_lines(ls: Seq<Seq<char>>) -> Seq<char>
    decreases ls.len(),
{
    if ls.len() == 0 {
        Seq::<char>::empty()
    } else if ls.len() == 1 {
        ls[0]
    } else {
        join_lines(ls.drop_last()) + seq!['\n'] + ls.last()
    }
}

/// The lines of a session listing.
pub open spec fn listing_lines(ss: Seq<SessionInfo>) -> Seq<Seq<char>> {
    seq!["Recent sessions:"@] + Seq::new(ss.len(), |i: int| session_line(i as nat, ss[i])) + seq![
        Seq::<char>::empty(),
        "Use /resume <id-prefix> to load a session."@,
    ]
}

/// Every session id that is longer than twelve bytes can be cut after
/// twelve bytes, between two characters.
pub open spec fn ids_cuttable(ss: Seq<SessionInfo>) -> bool {
    forall|i: int|
        0 <= i < ss.len() ==> (utf8_len((#[trigger] ss[i]).id@) > 12 ==> is_boundary(ss[i].id@, 12))
}

/// The conversation with its last message dropped when that message
/// mentions `Loading` (the notice that a listing is on its way).
pub open spec fn without_loading_notice(msgs: Seq<ChatLine>) -> Seq<ChatLine> {
    if msgs.len() > 0 && contains_seq(msgs.last().content, "Loading"@) {
        msgs.drop_last()
    } else {
        msgs
    }
}

/// Whether the text of an optional string is absent or different from `lit`.
fn is_some_other_than(o: &Option<String>, lit: &str) -> (b: bool)
    ensures
        b == (or_text(*o, lit@) != lit@),
{
    match o {
        Some(s) => {
            let a = to_chars(s.as_str());
            let l = to_chars(lit);
            !eq_chars(a.as_slice(), l.as_slice())
        },
        None => false,
    }
}

/// Appends the text of `o`, or `default` when it is absent.
fn append_or(t: &mut String, o: &Option<String>, default: &str)
    ensures
        final(t)@ == old(t)@ + or_text(*o, default@),
{
    match o {
        Some(s) => t.append(s.as_str()),
        None => t.append(default),
    }
}

/// The listing line of session `s` at index `i`.
pub fn format_session_line(i: usize, s: &SessionInfo) -> (r: String)
    requires
        i < usize::MAX,
        utf8_len(s.id@) > 12 ==> is_boundary(s.id@, 12),
    ensures
        r@ == session_line(i as nat, *s),
{
    let mut number = String::new();
    push_decimal(&mut number, (i + 1) as u64);
    let mut r = String::from_str("  ");
    if number.as_str().unicode_len() < 2 {
        push_char(&mut r, ' ');
    }
    r.append(number.as_str());
    r.append(". [");
    let id = to_chars(s.id.as_str());
    let short = byte_prefix_string(id.as_slice(), 12);
    r.append(short.as_str());
    r.append("] ");
    if is_some_other_than(&s.title, "(untitled)") {
        append_or(&mut r, &s.title, "(untitled)");
    } else if s.preview.is_some() && !s.preview.as_ref().unwrap().as_str().is_empty() {
        append_or(&mut r, &s.preview, "");
    } else {
        r.append("(empty)");
    }
    r.append(" (");
    append_or(&mut r, &s.source, "?");
    r.append(", ");
    let count: u32 = match s.message_count {
        Some(n) => n,
        None => 0,
    };
    push_decimal(&mut r, count as u64);
    r.append(" msgs)");
    proof {
        let d = decimal((i + 1) as nat);
        assert(r@ =~= session_line(i as nat, *s));
    }
    r
}


/// The text of a session listing: its lines joined with line feeds.
pub fn session_listing(ss: &[SessionInfo]) -> (r: String)
    requires
        ids_cuttable(ss@),
    ensures
        r@ == join_lines(listing_lines(ss@)),
{
    let ghost lines = listing_lines(ss@);
    let mut r = String::from_str("Recent sessions:");
    let mut i: usize = 0;
    assert((seq!["Recent sessions:"@] + lines.subrange(1, 1)) =~= seq!["Recent sessions:"@]);
    assert(lines.take(1) =~= seq!["Recent sessions:"@]);
    while i < ss.len()
        invariant
            i <= ss@.len(),
            ids_cuttable(ss@),
            lines == listing_lines(ss@),
            r@ == join_lines(lines.take(i + 1)),
        decreases ss@.len() - i,
    {
        let line = format_session_line(i, &ss[i]);
        push_char(&mut r, '\n');
        r.append(line.as_str());
        assert(lines.take(i + 2).drop_last() =~= lines.take(i + 1));
        assert(lines[i + 1] == session_line(i as nat, ss@[i as int]));
        i = i + 1;
    }
    let n = ss.len();
    push_char(&mut r, '\n');
    assert(lines.take(n + 2).drop_last() =~= lines.take(n + 1));
    assert(lines[n + 1] == Seq::<char>::empty());
    assert(r@ =~= join_lines(lines.take(n + 2)));
    push_char(&mut r, '\n');
    r.append("Use /resume <id-prefix> to load a session.");
    assert(lines.take(n + 3).drop_last() =~= lines.take(n + 2));
    assert(lines.take(n + 3) =~= lines);
    r
}

/// The role a stored message's role name stands for.
pub open spec fn role_of(name: Seq<char>) -> Role {
    if name == "user"@ {
        Role::User
    } else if name == "assistant"@ {
        Role::Assistant
    } else {
        Role::System
    }
}

/// The conversation messages of a stored session.
pub open spec fn imported(ms: Seq<SessionMessage>) -> Seq<ChatLine> {
    Seq::new(
        ms.len(),
        |i: int| ChatLine { role: role_of(ms[i].role@), content: ms[i].content@, tokens: None },
    )
}

/// The role named `name`: `user`, `assistant`, and otherwise system.
pub fn role_from_name(name: &str) -> (r: Role)
    ensures
        r == role_of(name@),
{
    let c = to_chars(name);
    let user = to_chars("user");
    let assistant = to_chars("assistant");
    if eq_chars(c.as_slice(), user.as_slice()) {
        Role::User
    } else if eq_chars(c.as_slice(), assistant.as_slice()) {
        Role::Assistant
    } else {
        Role::System
    }
}

/// The stored messages as conversation messages.
fn import_messages(ms: Vec<SessionMessage>) -> (r: Vec<ChatMessage>)
    ensures
        lines_of(r@) == imported(ms@),
{
    let mut r: Vec<ChatMessage> = Vec::new();
    let mut i: usize = 0;
    while i < ms.len()
        invariant
            i <= ms@.len(),
            lines_of(r@) == imported(ms@).take(i as int),
        decreases ms@.len() - i,
    {
        let m = &ms[i];
        let ghost before = lines_of(r@);
        let role = role_from_name(m.role.as_str());
        let content = m.content.clone();
        r.push(ChatMessage { role, content, tokens: None });
        assert(lines_of(r@) =~= before.push(
            ChatLine { role: role_of(ms@[i as int].role@), content: ms@[i as int].content@, tokens: None },
        ));
        assert(imported(ms@).take(i + 1) =~= imported(ms@).take(i as int).push(imported(ms@)[i as int]));
        i = i + 1;
    }
    assert(imported(ms@).take(ms@.len() as int) =~= imported(ms@));
    r
}

/// The notice after a session was resumed with `n` messages.
pub open spec fn resumed_text(id: Seq<char>, n: nat) -> Seq<char> {
    "✓ Resumed session "@ + byte_prefix(id, 16) + " ("@ + decimal(n) + " messages loaded)"@
}

impl App {
    /// Takes the outcome of listing sessions into account: the error, or
    /// that there are none, or the listing (which replaces the last message
    /// when that message mentions `Loading`), as a notice.
    pub fn apply_sessions(&mut self, result: Result<Vec<SessionInfo>, String>)
        requires
            result matches Ok(ss) ==> ids_cuttable(ss@),
        ensures
            lines_of(final(self).messages@) == match result {
                Err(e) => lines_of(old(self).messages@).push(
                    notice("Failed to list sessions: "@ + e@),
                ),
                Ok(ss) => if ss@.len() == 0 {
                    lines_of(old(self).messages@).push(notice("No sessions found."@))
                } else {
                    without_loading_notice(lines_of(old(self).messages@)).push(
                        notice(join_lines(listing_lines(ss@))),
                    )
                },
            },
            *final(self) == (App { messages: final(self).messages, scroll_offset: 0, ..*old(self) }),
    {
        match result {
            Err(e) => {
                let mut text = String::from_str("Failed to list sessions: ");
                text.append(e.as_str());
                self.sys_msg(text);
            },
            Ok(ss) => {
                if ss.len() == 0 {
                    self.sys_msg(String::from_str("No sessions found."));
                } else {
                    let listing = session_listing(ss.as_slice());
                    let n = self.messages.len();
                    if n > 0 {
                        let last = to_chars(self.messages[n - 1].content.as_str());
                        let loading = to_chars("Loading");
                        if contains_chars(last.as_slice(), loading.as_slice()) {
                            self.messages.pop();
                            assert(lines_of(self.messages@) =~= lines_of(old(self).messages@).drop_last());
                        }
                    }
                    self.sys_msg(listing);
                }
            },
        }
    }

    /// Takes the outcome of resuming a session into account: on success the
    /// conversation becomes the session's messages followed by a notice, and
    /// the session id becomes the resolved one; on failure, a notice.
    pub fn apply_resume(&mut self, result: Result<(String, Vec<SessionMessage>), String>)
        requires
            result matches Ok(p) ==> (utf8_len(p.0@) > 16 ==> is_boundary(p.0@, 16)),
        ensures
            match result {
                Err(e) => lines_of(final(self).messages@) == lines_of(old(self).messages@).push(
                    notice("Failed to resume: "@ + e@),
                ) && *final(self) == (App {
                    messages: final(self).messages,
                    scroll_offset: 0,
                    ..*old(self)
                }),
                Ok(p) => lines_of(final(self).messages@) == imported(p.1@).push(
                    notice(resumed_text(p.0@, p.1@.len())),
                ) && final(self).session_id@ == p.0@ && *final(self) == (App {
                    messages: final(self).messages,
                    session_id: final(self).session_id,
                    session_title: None,
                    scroll_offset: 0,
                    ..*old(self)
                }),
            },
    {
        match result {
            Err(e) => {
                let mut text = String::from_str("Failed to resume: ");
                text.append(e.as_str());
                self.sys_msg(text);
            },
            Ok((resolved_id, api_messages)) => {
                let count = api_messages.len();
                let id = to_chars(resolved_id.as_str());
                let short = byte_prefix_string(id.as_slice(), 16);
                self.messages = import_messages(api_messages);
                self.session_id = resolved_id;
                self.session_title = None;
                let mut text = String::from_str("✓ Resumed session ");
                text.append(short.as_str());
                text.append(" (");
                push_decimal(&mut text, count as u64);
                text.append(" messages loaded)");
                self.sys_msg(text);
            },
        }
    }

    /// Takes the outcome of resuming the session named on the command line
    /// into account: on success the conversation becomes the session's
    /// messages followed by a notice of how many were loaded, and the
    /// session id becomes the resolved one; on failure, a notice.
    pub fn apply_startup_resume(&mut self, result: Result<(String, Vec<SessionMessage>), String>)
        ensures
            match result {
                Err(e) => lines_of(final(self).messages@) == lines_of(old(self).messages@).push(
                    notice("Failed to resume session: "@ + e@),
                ) && *final(self) == (App { messages: final(self).messages, ..*old(self) }),
                Ok(p) => lines_of(final(self).messages@) == imported(p.1@).push(
                    notice("✓ Resumed session ("@ + decimal(p.1@.len()) + " messages loaded)"@),
                ) && final(self).session_id@ == p.0@ && *final(self) == (App {
                    messages: final(self).messages,
                    session_id: final(self).session_id,
                    ..*old(self)
                }),
            },
    {
        match result {
            Err(e) => {
                let mut text = String::from_str("Failed to resume session: ");
                text.append(e.as_str());
                self.messages.push(ChatMessage { role: Role::System, content: text, tokens: None });
                assert(lines_of(self.messages@) =~= lines_of(old(self).messages@).push(
                    notice("Failed to resume session: "@ + e@),
                ));
            },
            Ok((resolved_id, api_messages)) => {
                let count = api_messages.len();
                let ghost ms = api_messages@;
                self.messages = import_messages(api_messages);
                self.session_id = resolved_id;
                let mut text = String::from_str("✓ Resumed session (");
                push_decimal(&mut text, count as u64);
                text.append(" messages loaded)");
                let ghost before = lines_of(self.messages@);
                self.messages.push(ChatMessage { role: Role::System, content: text, tokens: None });
                assert(lines_of(self.messages@) =~= before.push(
                    notice("✓ Resumed session ("@ + decimal(ms.len()) + " messages loaded)"@),
                ));
            },
        }
    }

    /// Acknowledges that an approval was sent.
    pub fn approval_sent(&mut self)
        ensures
            lines_of(final(self).messages@) == lines_of(old(self).messages@).push(
                notice("✓ Approval sent."@),
            ),
            *final(self) == (App { messages: final(self).messages, scroll_offset: 0, ..*old(self) }),
    {
        self.sys_msg(String::from_str("✓ Approval sent."));
    }

    /// Acknowledges that a denial was sent.
    pub fn denial_sent(&mut self)
        ensures
            lines_of(final(self).messages@) == lines_of(old(self).messages@).push(
                notice("✗ Denial sent."@),
            ),
            *final(self) == (App { messages: final(self).messages, scroll_offset: 0, ..*old(self) }),
    {
        self.sys_msg(String::from_str("✗ Denial sent."));
    }
}

} // verus!
