//! Application state and its transitions: the conversation, the input line
//! with its cursor, scrolling, streaming replies, and slash commands.
//!
//! Work that needs the network is not done here: a transition that needs it
//! returns an [`Effect`], and the caller reports the outcome back through
//! the matching `apply_*` method.

use vstd::prelude::*;
use vstd::string::*;

use crate::api::{HermesClient, Message, ServerStatus};
use crate::editing::{edit_allowed, edit_line, edit_spec, growth, lemma_edit_bounds, KeyAction};
use crate::event::Usage;
use crate::text::{
    char_index, char_pos, from_chars, is_boundary, lemma_char_pos, prefix_bytes, to_chars, utf8_len,
};

verus! {

/// Visible role tag for messages in the conversation.
#[derive(Debug, Clone, Copy, PartialEq, Eq, Structural)]
pub enum Role {
    User,
    Assistant,
    System,
}

/// A single message in the conversation view.
#[derive(Debug, Clone)]
pub struct ChatMessage {
    pub role: Role,
    pub content: String,
    pub tokens: Option<Usage>,
}

/// A conversation message as a value.
pub struct ChatLine {
    pub role: Role,
    pub content: Seq<char>,
    pub tokens: Option<Usage>,
}

impl View for ChatMessage {
    type V = ChatLine;

    open spec fn view(&self) -> ChatLine {
        ChatLine { role: self.role, content: self.content@, tokens: self.tokens }
    }
}

/// The values of a list of conversation messages.
pub open spec fn lines_of(v: Seq<ChatMessage>) -> Seq<ChatLine> {
    v.map_values(|m: ChatMessage| m@)
}

/// A system notice with the given text.
pub open spec fn notice(text: Seq<char>) -> ChatLine {
    ChatLine { role: Role::System, content: text, tokens: None }
}

/// What the assistant is currently doing.
#[derive(Debug, Clone)]
pub enum AgentStatus {
    Idle,
    Streaming,
    Error(String),
}

/// Work the caller performs on the application's behalf.
#[derive(Debug)]
pub enum Effect {
    /// Nothing to do.
    Nothing,
    /// Stream a chat completion of `messages` in session `session_id`;
    /// report its events through `handle_stream_*`.
    Stream { messages: Vec<Message>, session_id: String },
    /// Fetch the `limit` most recent sessions; report through `apply_sessions`.
    ListSessions { limit: u32 },
    /// Fetch the messages of the session `session_id` (an id or id prefix);
    /// report through `apply_resume`.
    Resume { session_id: String },
    /// Approve the pending command of session `session_id`; then call `approval_sent`.
    Approve { session_id: String },
    /// Deny the pending command of session `session_id`; then call `denial_sent`.
    Deny { session_id: String },
    /// Abort the chat completion being streamed; no more of its events follow.
    CancelStream,
}

/// The text of the first message of a fresh conversation.
pub open spec fn welcome_text() -> Seq<char> {
    "Welcome to Hermes TUI. Type a message or /help for commands."@
}

/// `s` is a version-4 UUID in lowercase hyphenated form.
pub open spec fn is_uuid_v4_text(s: Seq<char>) -> bool {
    &&& s.len() == 36
    &&& forall|i: int|
        0 <= i < 36 ==> if i == 8 || i == 13 || i == 18 || i == 23 {
            s[i] == '-'
        } else {
            ('0' <= #[trigger] s[i] <= '9') || ('a' <= s[i] <= 'f')
        }
    &&& s[14] == '4'
    &&& (s[19] == '8' || s[19] == '9' || s[19] == 'a' || s[19] == 'b')
}

/// A fresh random session id (`uuid::Uuid::new_v4()` in its hyphenated
/// text form). Stated: the text has the shape of a version-4 UUID; which
/// random id comes out is not stated.
#[verifier::external_body]
pub(crate) fn new_session_id() -> (s: String)
    ensures
        is_uuid_v4_text(s@),
{
    uuid::Uuid::new_v4().to_string()
}

/// The scroll offset `off` moved by `delta` lines, kept within `0..=u16::MAX`.
pub open spec fn scrolled(off: u16, delta: int) -> u16 {
    if off + delta < 0 {
        0
    } else if off + delta > u16::MAX {
        u16::MAX
    } else {
        (off + delta) as u16
    }
}

/// Chat completion messages as (role, content) pairs.
pub open spec fn message_views(v: Seq<Message>) -> Seq<(Seq<char>, Seq<char>)> {
    v.map_values(|m: Message| (m.role@, m.content@))
}

/// The chat completion messages of a conversation: its user and assistant
/// messages, in order, as (role, content) pairs.
pub open spec fn api_view(msgs: Seq<ChatLine>) -> Seq<(Seq<char>, Seq<char>)>
    decreases msgs.len(),
{
    if msgs.len() == 0 {
        Seq::empty()
    } else {
        let rest = api_view(msgs.drop_last());
        let m = msgs.last();
        match m.role {
            Role::User => rest.push(("user"@, m.content)),
            Role::Assistant => rest.push(("assistant"@, m.content)),
            Role::System => rest,
        }
    }
}

/// The conversation after the streamed reply so far, when non-empty, was
/// kept as an assistant message with token counts `tokens`.
pub open spec fn kept_reply(old: App, tokens: Option<Usage>) -> Seq<ChatLine> {
    if old.pending_response@.len() > 0 {
        lines_of(old.messages@).push(
            ChatLine { role: Role::Assistant, content: old.pending_response@, tokens },
        )
    } else {
        lines_of(old.messages@)
    }
}

/// `fin` is `old` after the streamed reply ended normally with `usage`:
/// the reply is kept with its usage, nothing is pending, the agent is idle,
/// and the view is at the latest message.
pub open spec fn stream_done_post(old: App, fin: App, usage: Option<Usage>) -> bool {
    &&& lines_of(fin.messages@) == kept_reply(old, usage)
    &&& fin.pending_response@.len() == 0
    &&& fin.status is Idle
    &&& fin == App {
        messages: fin.messages,
        pending_response: fin.pending_response,
        status: fin.status,
        scroll_offset: 0,
        ..old
    }
}

/// `fin` is `old` after the streamed reply failed with error `err`: what
/// arrived is kept, followed by an error notice; nothing is pending, the
/// agent is idle, and the view is at the latest message.
pub open spec fn stream_error_post(old: App, fin: App, err: Seq<char>) -> bool {
    &&& lines_of(fin.messages@) == kept_reply(old, None).push(notice("⚠ Error: "@ + err))
    &&& fin.pending_response@.len() == 0
    &&& fin.status is Idle
    &&& fin == App {
        messages: fin.messages,
        pending_response: fin.pending_response,
        status: fin.status,
        scroll_offset: 0,
        ..old
    }
}

/// `fin` is `old` after Ctrl+C: a reply being streamed is cancelled (what
/// arrived of it is kept as an assistant message, the agent is idle again,
/// and the caller is asked to abort the request); otherwise nothing happens.
pub open spec fn cancel_post(old: App, fin: App, eff: Effect) -> bool {
    if old.status is Streaming {
        &&& eff == Effect::CancelStream
        &&& lines_of(fin.messages@) == kept_reply(old, None)
        &&& fin.pending_response@.len() == 0
        &&& fin.status is Idle
        &&& fin == App {
            messages: fin.messages,
            pending_response: fin.pending_response,
            status: fin.status,
            ..old
        }
    } else {
        eff == Effect::Nothing && fin == old
    }
}

/// `fin` is `old` after text `d` of the streamed reply arrived.
pub open spec fn delta_post(old: App, fin: App, d: Seq<char>) -> bool {
    &&& fin.pending_response@ == old.pending_response@ + d
    &&& fin == App { pending_response: fin.pending_response, scroll_offset: 0, ..old }
}

/// `fin` is `old` after a mouse scroll by `delta`, counted.
pub open spec fn scroll_post(old: App, fin: App, delta: int) -> bool {
    fin == App {
        mouse_events: (old.mouse_events + 1) as u64,
        scroll_offset: scrolled(old.scroll_offset, delta),
        ..old
    }
}

/// Application state.
pub struct App {
    pub client: HermesClient,
    /// Full conversation history (rendered in the scroll view).
    pub messages: Vec<ChatMessage>,
    /// Input buffer (what the user is typing).
    pub input: String,
    /// Cursor position within `input`, in bytes.
    pub cursor: usize,
    /// Scroll offset for the message viewport (0 = bottom / latest).
    pub scroll_offset: u16,
    /// Current agent status.
    pub status: AgentStatus,
    /// Accumulator for the in-progress assistant response.
    pub pending_response: String,
    /// Session ID for continuity.
    pub session_id: String,
    /// Resolved model name from server.
    pub model_name: String,
    /// Display-friendly model alias.
    pub model_display: String,
    /// Session title (if known, e.g. after resume).
    pub session_title: Option<String>,
    /// Spinner tick counter (for animation).
    pub tick: u64,
    /// Mouse event counter (diagnostic — shown in status bar).
    pub mouse_events: u64,
    /// Exit flag.
    pub quit: bool,
}

impl App {
    /// The cursor sits between two characters of the input, and the input
    /// fits the address space.
    pub open spec fn wf(&self) -> bool {
        &&& is_boundary(self.input@, self.cursor as int)
        &&& utf8_len(self.input@) <= isize::MAX
    }

    /// The character index of the cursor.
    pub open spec fn cursor_pos(&self) -> int {
        char_pos(self.input@, self.cursor as int)
    }

    /// A fresh conversation with the welcome notice, talking to `client`.
    pub fn new(client: HermesClient) -> (app: Self)
        ensures
            app.wf(),
            !app.quit,
            app.client == client,
            lines_of(app.messages@) == seq![notice(welcome_text())],
            app.input@.len() == 0,
            app.cursor == 0,
            app.scroll_offset == 0,
            app.status is Idle,
            app.pending_response@.len() == 0,
            is_uuid_v4_text(app.session_id@),
            app.model_name@.len() == 0,
            app.model_display@ == client@.model,
            app.session_title is None,
            app.tick == 0,
            app.mouse_events == 0,
    {
        let model_display = client.model().to_owned();
        let mut messages: Vec<ChatMessage> = Vec::new();
        messages.push(
            ChatMessage {
                role: Role::System,
                content: String::from_str(
                    "Welcome to Hermes TUI. Type a message or /help for commands.",
                ),
                tokens: None,
            },
        );
        let app = App {
            client,
            messages,
            input: String::new(),
            cursor: 0,
            scroll_offset: 0,
            status: AgentStatus::Idle,
            pending_response: String::new(),
            session_id: new_session_id(),
            model_name: String::new(),
            model_display,
            session_title: None,
            tick: 0,
            mouse_events: 0,
            quit: false,
        };
        proof {
            lemma_char_pos(app.input@, 0);
            assert(app.input@.take(0) =~= app.input@);
            assert(lines_of(app.messages@) =~= seq![notice(welcome_text())]);
        }
        app
    }

    /// Pushes a system notice and scrolls to the latest message.
    pub(crate) fn sys_msg(&mut self, text: String)
        ensures
            lines_of(final(self).messages@) == lines_of(old(self).messages@).push(notice(text@)),
            *final(self) == (App {
                messages: final(self).messages,
                scroll_offset: 0,
                ..*old(self)
            }),
    {
        self.messages.push(ChatMessage { role: Role::System, content: text, tokens: None });
        self.scroll_offset = 0;
        proof {
            assert(lines_of(self.messages@) =~= lines_of(old(self).messages@).push(notice(text@)));
        }
    }

    /// Takes the server status into account: the resolved model name and
    /// its display alias when the status arrived (`Some`), and otherwise
    /// the configured model as the model name.
    pub fn apply_status(&mut self, status: Option<ServerStatus>)
        ensures
            match status {
                Some(st) => final(self).model_name == st.model && final(self).model_display
                    == st.model_display && *final(self) == (App {
                    model_name: final(self).model_name,
                    model_display: final(self).model_display,
                    ..*old(self)
                }),
                None => final(self).model_name@ == old(self).client@.model && *final(self) == (App {
                    model_name: final(self).model_name,
                    ..*old(self)
                }),
            },
    {
        match status {
            Some(st) => {
                self.model_name = st.model;
                self.model_display = st.model_display;
            },
            None => {
                self.model_name = self.client.model().to_owned();
            },
        }
    }

    /// Appends a piece of the streamed reply and scrolls to the latest message.
    pub fn handle_stream_delta(&mut self, delta: &str)
        ensures
            delta_post(*old(self), *final(self), delta@),
    {
        self.pending_response.append(delta);
        self.scroll_offset = 0;
    }

    /// Ends the streamed reply: a non-empty reply becomes an assistant
    /// message carrying `usage`; the agent is idle again.
    pub fn handle_stream_done(&mut self, usage: Option<Usage>)
        ensures
            stream_done_post(*old(self), *final(self), usage),
    {
        let content = self.pending_response.clone();
        self.pending_response = String::new();
        if !content.as_str().is_empty() {
            self.messages.push(ChatMessage { role: Role::Assistant, content, tokens: usage });
            proof {
                assert(lines_of(self.messages@) =~= lines_of(old(self).messages@).push(
                    ChatLine { role: Role::Assistant, content: old(self).pending_response@, tokens: usage },
                ));
            }
        }
        self.status = AgentStatus::Idle;
        self.scroll_offset = 0;
    }

    /// Ends the streamed reply with an error: what arrived so far is kept as
    /// an assistant message, the error becomes a notice, the agent is idle.
    pub fn handle_stream_error(&mut self, err: &str)
        ensures
            stream_error_post(*old(self), *final(self), err@),
    {
        if !self.pending_response.as_str().is_empty() {
            let content = self.pending_response.clone();
            self.pending_response = String::new();
            self.messages.push(ChatMessage { role: Role::Assistant, content, tokens: None });
            proof {
                assert(lines_of(self.messages@) =~= lines_of(old(self).messages@).push(
                    ChatLine { role: Role::Assistant, content: old(self).pending_response@, tokens: None },
                ));
            }
        }
        let mut text = String::from_str("⚠ Error: ");
        text.append(err);
        self.sys_msg(text);
        self.status = AgentStatus::Idle;
    }

    /// Mouse scroll: positive = scroll up (older), negative = scroll down
    /// (newer); the offset stays within `0..=u16::MAX`. Counts the event.
    pub fn handle_scroll(&mut self, delta: i16)
        requires
            old(self).mouse_events < u64::MAX,
        ensures
            scroll_post(*old(self), *final(self), delta as int),
    {
        self.mouse_events = self.mouse_events + 1;
        if delta > 0 {
            self.scroll_offset = self.scroll_offset.saturating_add(delta as u16);
        } else {
            let down: u16 = (0i32 - delta as i32) as u16;
            self.scroll_offset = self.scroll_offset.saturating_sub(down);
        }
    }

    /// Cancels the reply being streamed (Ctrl+C): what arrived of it is
    /// kept, the agent is idle again, and the request is to be aborted.
    /// Does nothing when no reply is streaming.
    pub fn cancel_stream(&mut self) -> (eff: Effect)
        ensures
            cancel_post(*old(self), *final(self), eff),
    {
        match self.status {
            AgentStatus::Streaming => {},
            _ => return Effect::Nothing,
        }
        if !self.pending_response.as_str().is_empty() {
            let content = self.pending_response.clone();
            self.pending_response = String::new();
            self.messages.push(ChatMessage { role: Role::Assistant, content, tokens: None });
            proof {
                assert(lines_of(self.messages@) =~= lines_of(old(self).messages@).push(
                    ChatLine { role: Role::Assistant, content: old(self).pending_response@, tokens: None },
                ));
            }
        }
        self.status = AgentStatus::Idle;
        Effect::CancelStream
    }

    /// Clears the conversation from the screen (Ctrl+L).
    pub fn clear_screen(&mut self)
        ensures
            final(self).messages@.len() == 0,
            *final(self) == (App { messages: final(self).messages, scroll_offset: 0, ..*old(self) }),
    {
        self.messages = Vec::new();
        self.scroll_offset = 0;
    }

    /// The conversation as chat completion messages: user and assistant
    /// messages, in order; notices are left out.
    pub fn build_api_messages(&self) -> (r: Vec<Message>)
        ensures
            message_views(r@) == api_view(lines_of(self.messages@)),
    {
        let mut r: Vec<Message> = Vec::new();
        let mut i: usize = 0;
        while i < self.messages.len()
            invariant
                i <= self.messages@.len(),
                message_views(r@) == api_view(lines_of(self.messages@).take(i as int)),
            decreases self.messages@.len() - i,
        {
            let m = &self.messages[i];
            let ghost before = message_views(r@);
            proof {
                assert(lines_of(self.messages@).take(i + 1).drop_last() =~= lines_of(
                    self.messages@,
                ).take(i as int));
            }
            match m.role {
                Role::User => {
                    r.push(Message { role: String::from_str("user"), content: m.content.clone() });
                    assert(message_views(r@) =~= before.push(("user"@, m.content@)));
                },
                Role::Assistant => {
                    r.push(
                        Message { role: String::from_str("assistant"), content: m.content.clone() },
                    );
                    assert(message_views(r@) =~= before.push(("assistant"@, m.content@)));
                },
                Role::System => {},
            }
            i = i + 1;
        }
        assert(lines_of(self.messages@).take(self.messages@.len() as int) =~= lines_of(
            self.messages@,
        ));
        r
    }

    /// Applies a line-editing action to the input and the cursor; End also
    /// scrolls ten lines towards the latest message.
    pub(crate) fn edit_input(&mut self, a: KeyAction)
        requires
            old(self).wf(),
            edit_allowed(old(self).input@, old(self).cursor_pos(), a),
            utf8_len(old(self).input@) + growth(a) <= isize::MAX,
        ensures
            final(self).wf(),
            final(self).input@ == edit_spec(old(self).input@, old(self).cursor_pos(), a).0,
            final(self).cursor == utf8_len(
                edit_spec(old(self).input@, old(self).cursor_pos(), a).0.take(
                    edit_spec(old(self).input@, old(self).cursor_pos(), a).1,
                ),
            ),
            *final(self) == (App {
                input: final(self).input,
                cursor: final(self).cursor,
                scroll_offset: if a is End {
                    old(self).scroll_offset.saturating_sub(10)
                } else {
                    old(self).scroll_offset
                },
                ..*old(self)
            }),
    {
        let v = to_chars(self.input.as_str());
        let k = char_index(v.as_slice(), self.cursor);
        let ghost r = edit_spec(v@, k as int, a);
        proof {
            lemma_edit_bounds(v@, k as int, a);
        }
        let (nv, nk) = edit_line(v.as_slice(), k, a);
        let cursor = prefix_bytes(nv.as_slice(), nk);
        self.input = from_chars(nv.as_slice());
        self.cursor = cursor;
        proof {
            lemma_char_pos(nv@, nk as int);
        }
        if let KeyAction::End = a {
            self.scroll_offset = self.scroll_offset.saturating_sub(10);
        }
    }

    pub fn should_quit(&self) -> (r: bool)
        ensures
            r == self.quit,
    {
        self.quit
    }

    /// Advances the spinner counter, wrapping around at the top.
    pub fn tick(&mut self)
        ensures
            final(self).tick == (if old(self).tick == u64::MAX {
                0
            } else {
                (old(self).tick + 1) as u64
            }),
            *final(self) == (App { tick: final(self).tick, ..*old(self) }),
    {
        self.tick = self.tick.wrapping_add(1);
    }
}

} // verus!
