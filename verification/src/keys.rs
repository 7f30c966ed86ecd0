//! Key handling: what each key press does to the application.

use vstd::prelude::*;

use crate::app::{
    api_view, cancel_post, delta_post, lines_of, message_views, scroll_post, stream_done_post,
    stream_error_post, AgentStatus, App,
    ChatLine, ChatMessage, Effect, Role,
};
use crate::commands::{command_arg, command_of, command_post, first_word};
use crate::editing::{edit_allowed, edit_spec, growth, key_action, key_action_spec, KeyAction};
use crate::event::{AppEvent, KeyPress};
use crate::text::{lemma_char_pos, lowercase, to_chars, trim_seq, trimmed, utf8_len};

verus! {

/// What submitting the input line does to `old`, giving `fin` and the
/// work `eff`: a blank line changes nothing; otherwise the input is
/// cleared and the trimmed line runs as a command, or, when it is not a
/// command, becomes a user message that starts streaming a reply to the
/// whole conversation.
pub open spec fn submit_post(old: App, fin: App, eff: Effect) -> bool {
    let text = trim_seq(old.input@);
    if text.len() == 0 {
        fin == old && eff == Effect::Nothing
    } else {
        let cmd = lowercase(first_word(text));
        let arg = command_arg(text);
        &&& fin.input@.len() == 0
        &&& fin.cursor == 0
        &&& if command_of(cmd) is NotACommand {
            &&& lines_of(fin.messages@) == lines_of(old.messages@).push(
                ChatLine { role: Role::User, content: text, tokens: None },
            )
            &&& fin.status is Streaming
            &&& fin.pending_response@.len() == 0
            &&& fin == App {
                messages: fin.messages,
                input: fin.input,
                cursor: fin.cursor,
                scroll_offset: 0,
                status: fin.status,
                pending_response: fin.pending_response,
                ..old
            }
            &&& eff matches Effect::Stream { messages, session_id }
            &&& message_views(messages@) == api_view(lines_of(fin.messages@))
            &&& session_id@ == old.session_id@
        } else {
            command_post(old, fin, cmd, arg, Some(eff))
        }
    }
}

/// A key press that the application can handle in state `old`: Ctrl+W
/// needs a cut point that falls between characters, and an inserted
/// character must keep the input within the address space.
pub open spec fn key_allowed(old: App, key: KeyPress) -> bool {
    let a = key_action_spec(key, old.status is Idle);
    &&& edit_allowed(old.input@, old.cursor_pos(), a)
    &&& utf8_len(old.input@) + growth(a) <= isize::MAX
}

/// What key press `key` does to `old`, giving `fin` and the work `eff`.
pub open spec fn key_post(old: App, key: KeyPress, fin: App, eff: Effect) -> bool {
    let a = key_action_spec(key, old.status is Idle);
    match a {
        KeyAction::Quit => eff == Effect::Nothing && fin == App { quit: true, ..old },
        KeyAction::Cancel => cancel_post(old, fin, eff),
        KeyAction::ClearScreen => eff == Effect::Nothing && fin.messages@.len() == 0 && fin == App {
            messages: fin.messages,
            scroll_offset: 0,
            ..old
        },
        KeyAction::Submit => submit_post(old, fin, eff),
        KeyAction::ScrollUp(n) => eff == Effect::Nothing && fin == App {
            scroll_offset: old.scroll_offset.saturating_add(n),
            ..old
        },
        KeyAction::ScrollDown(n) => eff == Effect::Nothing && fin == App {
            scroll_offset: old.scroll_offset.saturating_sub(n),
            ..old
        },
        KeyAction::Ignore => eff == Effect::Nothing && fin == old,
        _ => {
            let r = edit_spec(old.input@, old.cursor_pos(), a);
            &&& eff == Effect::Nothing
            &&& fin.input@ == r.0
            &&& fin.cursor == utf8_len(r.0.take(r.1))
            &&& fin == App {
                input: fin.input,
                cursor: fin.cursor,
                scroll_offset: if a is End {
                    old.scroll_offset.saturating_sub(10)
                } else {
                    old.scroll_offset
                },
                ..old
            }
        },
    }
}

/// An event that the application can handle in state `old`: its key press
/// is allowed, and a scroll can be counted.
pub open spec fn event_allowed(old: App, ev: AppEvent) -> bool {
    match ev {
        AppEvent::Key(k) => key_allowed(old, k),
        AppEvent::MouseScroll(_) => old.mouse_events < u64::MAX,
        _ => true,
    }
}

/// What event `ev` does to `old`, giving `fin` and the work `eff`.
pub open spec fn event_post(old: App, ev: AppEvent, fin: App, eff: Effect) -> bool {
    match ev {
        AppEvent::Key(k) => key_post(old, k, fin, eff),
        AppEvent::Tick => eff == Effect::Nothing && fin == App {
            tick: if old.tick == u64::MAX {
                0
            } else {
                (old.tick + 1) as u64
            },
            ..old
        },
        AppEvent::MouseScroll(d) => eff == Effect::Nothing && scroll_post(old, fin, d as int),
        AppEvent::StreamDelta(text) => eff == Effect::Nothing && delta_post(old, fin, text@),
        AppEvent::StreamDone(usage) => eff == Effect::Nothing && stream_done_post(old, fin, usage),
        AppEvent::StreamError(err) => eff == Effect::Nothing && stream_error_post(old, fin, err@),
        AppEvent::Resize(_, _) => eff == Effect::Nothing && fin == old,
    }
}

impl App {
    /// Handles one event of the UI loop. Returns the work it needs.
    pub fn handle_event(&mut self, ev: AppEvent) -> (eff: Effect)
        requires
            old(self).wf(),
            event_allowed(*old(self), ev),
        ensures
            final(self).wf(),
            event_post(*old(self), ev, *final(self), eff),
    {
        match ev {
            AppEvent::Key(k) => self.handle_key(k),
            AppEvent::Tick => {
                self.tick();
                Effect::Nothing
            },
            AppEvent::MouseScroll(d) => {
                self.handle_scroll(d);
                Effect::Nothing
            },
            AppEvent::StreamDelta(text) => {
                self.handle_stream_delta(text.as_str());
                Effect::Nothing
            },
            AppEvent::StreamDone(usage) => {
                self.handle_stream_done(usage);
                Effect::Nothing
            },
            AppEvent::StreamError(err) => {
                self.handle_stream_error(err.as_str());
                Effect::Nothing
            },
            AppEvent::Resize(_, _) => Effect::Nothing,
        }
    }

    /// Submits the input line (Enter while idle).
    fn submit(&mut self) -> (eff: Effect)
        requires
            old(self).wf(),
        ensures
            final(self).wf(),
            submit_post(*old(self), *final(self), eff),
    {
        let v = to_chars(self.input.as_str());
        let text = trimmed(v.as_slice());
        if text.as_str().is_empty() {
            return Effect::Nothing;
        }
        self.input = String::new();
        self.cursor = 0;
        proof {
            lemma_char_pos(self.input@, 0);
        }
        match self.handle_command(text.as_str()) {
            Some(e) => e,
            None => {
                let ghost before = lines_of(self.messages@);
                self.messages.push(ChatMessage { role: Role::User, content: text, tokens: None });
                proof {
                    assert(lines_of(self.messages@) =~= before.push(
                        ChatLine { role: Role::User, content: trim_seq(old(self).input@), tokens: None },
                    ));
                }
                self.scroll_offset = 0;
                self.status = AgentStatus::Streaming;
                self.pending_response = String::new();
                let messages = self.build_api_messages();
                Effect::Stream { messages, session_id: self.session_id.clone() }
            },
        }
    }

    /// Handles a key press. Returns the work it needs: a reply to stream,
    /// or what a slash command asks for.
    pub fn handle_key(&mut self, key: KeyPress) -> (eff: Effect)
        requires
            old(self).wf(),
            key_allowed(*old(self), key),
        ensures
            final(self).wf(),
            key_post(*old(self), key, *final(self), eff),
    {
        let idle = match self.status {
            AgentStatus::Idle => true,
            _ => false,
        };
        let a = key_action(key, idle);
        match a {
            KeyAction::Quit => {
                self.quit = true;
                Effect::Nothing
            },
            KeyAction::Cancel => self.cancel_stream(),
            KeyAction::ClearScreen => {
                self.clear_screen();
                Effect::Nothing
            },
            KeyAction::Submit => self.submit(),
            KeyAction::ScrollUp(n) => {
                self.scroll_offset = self.scroll_offset.saturating_add(n);
                Effect::Nothing
            },
            KeyAction::ScrollDown(n) => {
                self.scroll_offset = self.scroll_offset.saturating_sub(n);
                Effect::Nothing
            },
            KeyAction::Ignore => Effect::Nothing,
            _ => {
                self.edit_input(a);
                Effect::Nothing
            },
        }
    }
}

} // verus!
