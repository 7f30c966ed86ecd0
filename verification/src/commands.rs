//! Slash commands: how a submitted line is read as a command, and what
//! each command does to the application.

use vstd::prelude::*;
use vstd::string::*;

use crate::app::{is_uuid_v4_text, lines_of, new_session_id, notice, App, Effect};
use crate::text::{
    eq_chars, find_char, first_index, from_chars, lowercase, to_chars, to_lowercase, trim_seq,
    trimmed,
};

verus! {

/// The slash commands.
#[derive(Debug, Clone, Copy, PartialEq, Eq, Structural)]
pub enum Command {
    Quit,
    Clear,
    New,
    Sessions,
    Resume,
    Model,
    Approve,
    Deny,
    Help,
    /// A word that starts with `/` but names no command.
    Unknown,
    /// The line is not a command.
    NotACommand,
}

/// Which command the (lowercased) word `cmd` names.
pub open spec fn command_of(cmd: Seq<char>) -> Command {
    if cmd == "/quit"@ || cmd == "/exit"@ || cmd == "/q"@ {
        Command::Quit
    } else if cmd == "/clear"@ {
        Command::Clear
    } else if cmd == "/new"@ {
        Command::New
    } else if cmd == "/sessions"@ || cmd == "/session"@ || cmd == "/s"@ {
        Command::Sessions
    } else if cmd == "/resume"@ || cmd == "/r"@ {
        Command::Resume
    } else if cmd == "/model"@ {
        Command::Model
    } else if cmd == "/approve"@ {
        Command::Approve
    } else if cmd == "/deny"@ {
        Command::Deny
    } else if cmd == "/help"@ || cmd == "/h"@ || cmd == "/?"@ {
        Command::Help
    } else if cmd.len() > 0 && cmd[0] == '/' {
        Command::Unknown
    } else {
        Command::NotACommand
    }
}

/// Whether `c` holds the characters of `lit`.
fn is_word(c: &[char], lit: &str) -> (b: bool)
    ensures
        b == (c@ == lit@),
{
    let l = to_chars(lit);
    eq_chars(c, l.as_slice())
}

/// Names the command that the lowercased word `cmd` stands for.
pub fn classify_command(cmd: &str) -> (r: Command)
    ensures
        r == command_of(cmd@),
{
    let c = to_chars(cmd);
    let c = c.as_slice();
    if is_word(c, "/quit") || is_word(c, "/exit") || is_word(c, "/q") {
        Command::Quit
    } else if is_word(c, "/clear") {
        Command::Clear
    } else if is_word(c, "/new") {
        Command::New
    } else if is_word(c, "/sessions") || is_word(c, "/session") || is_word(c, "/s") {
        Command::Sessions
    } else if is_word(c, "/resume") || is_word(c, "/r") {
        Command::Resume
    } else if is_word(c, "/model") {
        Command::Model
    } else if is_word(c, "/approve") {
        Command::Approve
    } else if is_word(c, "/deny") {
        Command::Deny
    } else if is_word(c, "/help") || is_word(c, "/h") || is_word(c, "/?") {
        Command::Help
    } else if c.len() > 0 && c[0] == '/' {
        Command::Unknown
    } else {
        Command::NotACommand
    }
}

/// The first word of a submitted line: the text before its first space.
pub open spec fn first_word(text: Seq<char>) -> Seq<char> {
    match first_index(text, ' ') {
        Some(p) => text.take(p),
        None => text,
    }
}

/// The argument of a command line: the text after the first space,
/// trimmed; empty when there is no space.
pub open spec fn command_arg(text: Seq<char>) -> Seq<char> {
    match first_index(text, ' ') {
        Some(p) => trim_seq(text.skip(p + 1)),
        None => Seq::<char>::empty(),
    }
}

/// Splits a line into its first word and its trimmed argument.
pub fn split_command(text: &str) -> (r: (String, String))
    ensures
        r.0@ == first_word(text@),
        r.1@ == command_arg(text@),
{
    let v = to_chars(text);
    let n = v.len();
    match find_char(v.as_slice(), ' ') {
        Some(p) => {
            assert(v@.take(p as int) =~= v@.subrange(0, p as int));
            assert(v@.skip(p + 1) =~= v@.subrange(p + 1, n as int));
            (from_chars(&v.as_slice()[0..p]), trimmed(&v.as_slice()[p + 1..n]))
        },
        None => (from_chars(v.as_slice()), String::new()),
    }
}

/// The text of the help notice.
pub open spec fn help_text() -> Seq<char> {
    "Commands:\n\
     \n\
     /new             Start a new session\n\
     /sessions        List recent sessions\n\
     /resume <id>     Resume a session by ID or prefix\n\
     /model           Show current model\n\
     /approve         Approve pending dangerous command\n\
     /deny            Deny pending dangerous command\n\
     /clear           Clear the screen\n\
     /quit            Exit\n\
     \n\
     Scroll: PgUp/PgDn, Ctrl+U (up 10), Ctrl+E (down)"@
}

/// The text of the `/model` notice.
pub open spec fn model_text(name: Seq<char>, display: Seq<char>) -> Seq<char> {
    if name.len() == 0 {
        "Model: "@ + display
    } else {
        "Model: "@ + name + " (display: "@ + display + ")"@
    }
}

/// Number of sessions `/sessions` asks for.
pub const SESSION_LIST_LIMIT: u32 = 15;

/// `fin` is `old` after the notice `text` was pushed (the input line
/// aside, which command handling leaves to its caller).
pub open spec fn pushed_notice(old: App, fin: App, text: Seq<char>) -> bool {
    &&& lines_of(fin.messages@) == lines_of(old.messages@).push(notice(text))
    &&& fin == App {
        messages: fin.messages,
        scroll_offset: 0,
        input: fin.input,
        cursor: fin.cursor,
        ..old
    }
}

/// What command `cmd` with argument `arg` does to `old`, giving `fin`
/// and returning `r` (none when the line is not a command). The input line
/// and cursor are not part of it.
pub open spec fn command_post(old: App, fin: App, cmd: Seq<char>, arg: Seq<char>, r: Option<Effect>) -> bool {
    match command_of(cmd) {
        Command::Quit => r == Some(Effect::Nothing) && fin == App {
            quit: true,
            input: fin.input,
            cursor: fin.cursor,
            ..old
        },
        Command::Clear => r == Some(Effect::Nothing) && fin.messages@.len() == 0 && fin == App {
            messages: fin.messages,
            scroll_offset: 0,
            input: fin.input,
            cursor: fin.cursor,
            ..old
        },
        Command::New => r == Some(Effect::Nothing) && lines_of(fin.messages@) == seq![
            notice("New session started."@),
        ] && is_uuid_v4_text(fin.session_id@) && fin == App {
            messages: fin.messages,
            session_id: fin.session_id,
            session_title: None,
            scroll_offset: 0,
            input: fin.input,
            cursor: fin.cursor,
            ..old
        },
        Command::Sessions => r == Some(Effect::ListSessions { limit: SESSION_LIST_LIMIT })
            && pushed_notice(old, fin, "Loading sessions…"@),
        Command::Resume => if arg.len() == 0 {
            r == Some(Effect::Nothing) && pushed_notice(
                old,
                fin,
                "Usage: /resume <session-id-or-prefix>"@,
            )
        } else {
            (r matches Some(Effect::Resume { session_id }) && session_id@ == arg) && pushed_notice(
                old,
                fin,
                "Resuming session "@ + arg + "…"@,
            )
        },
        Command::Model => r == Some(Effect::Nothing) && pushed_notice(
            old,
            fin,
            model_text(old.model_name@, old.model_display@),
        ),
        Command::Approve => (r matches Some(Effect::Approve { session_id }) && session_id@
            == old.session_id@) && fin == App { input: fin.input, cursor: fin.cursor, ..old },
        Command::Deny => (r matches Some(Effect::Deny { session_id }) && session_id@
            == old.session_id@) && fin == App { input: fin.input, cursor: fin.cursor, ..old },
        Command::Help => r == Some(Effect::Nothing) && pushed_notice(old, fin, help_text()),
        Command::Unknown => r == Some(Effect::Nothing) && pushed_notice(
            old,
            fin,
            "Unknown command: "@ + cmd + ". Type /help for commands."@,
        ),
        Command::NotACommand => r is None && fin == App {
            input: fin.input,
            cursor: fin.cursor,
            ..old
        },
    }
}


impl App {
    /// Runs command `cmd` (already lowercased) with argument `arg`. Returns
    /// the work the command needs, or none when `cmd` is not a command.
    pub fn apply_command(&mut self, cmd: &str, arg: &str) -> (r: Option<Effect>)
        ensures
            command_post(*old(self), *final(self), cmd@, arg@, r),
            final(self).input == old(self).input,
            final(self).cursor == old(self).cursor,
    {
        match classify_command(cmd) {
            Command::Quit => {
                self.quit = true;
                Some(Effect::Nothing)
            },
            Command::Clear => {
                self.messages = Vec::new();
                self.scroll_offset = 0;
                Some(Effect::Nothing)
            },
            Command::New => {
                self.messages = Vec::new();
                self.session_id = new_session_id();
                self.session_title = None;
                self.scroll_offset = 0;
                self.sys_msg(String::from_str("New session started."));
                proof {
                    assert(lines_of(self.messages@) =~= seq![notice("New session started."@)]);
                }
                Some(Effect::Nothing)
            },
            Command::Sessions => {
                self.sys_msg(String::from_str("Loading sessions…"));
                Some(Effect::ListSessions { limit: SESSION_LIST_LIMIT })
            },
            Command::Resume => {
                if arg.is_empty() {
                    self.sys_msg(String::from_str("Usage: /resume <session-id-or-prefix>"));
                    Some(Effect::Nothing)
                } else {
                    let mut text = String::from_str("Resuming session ");
                    text.append(arg);
                    text.append("…");
                    self.sys_msg(text);
                    Some(Effect::Resume { session_id: arg.to_owned() })
                }
            },
            Command::Model => {
                let mut text = String::from_str("Model: ");
                if self.model_name.as_str().is_empty() {
                    text.append(self.model_display.as_str());
                } else {
                    text.append(self.model_name.as_str());
                    text.append(" (display: ");
                    text.append(self.model_display.as_str());
                    text.append(")");
                }
                self.sys_msg(text);
                Some(Effect::Nothing)
            },
            Command::Approve => Some(Effect::Approve { session_id: self.session_id.clone() }),
            Command::Deny => Some(Effect::Deny { session_id: self.session_id.clone() }),
            Command::Help => {
                self.sys_msg(
                    String::from_str(
                        "Commands:\n\
                         \n\
                         /new             Start a new session\n\
                         /sessions        List recent sessions\n\
                         /resume <id>     Resume a session by ID or prefix\n\
                         /model           Show current model\n\
                         /approve         Approve pending dangerous command\n\
                         /deny            Deny pending dangerous command\n\
                         /clear           Clear the screen\n\
                         /quit            Exit\n\
                         \n\
                         Scroll: PgUp/PgDn, Ctrl+U (up 10), Ctrl+E (down)",
                    ),
                );
                Some(Effect::Nothing)
            },
            Command::Unknown => {
                let mut text = String::from_str("Unknown command: ");
                text.append(cmd);
                text.append(". Type /help for commands.");
                self.sys_msg(text);
                Some(Effect::Nothing)
            },
            Command::NotACommand => None,
        }
    }

    /// Handles a submitted line as a slash command: its first word,
    /// lowercased, names the command, and the rest, trimmed, is the
    /// argument. Returns the work the command needs, or none when the line
    /// is not a command.
    pub fn handle_command(&mut self, text: &str) -> (r: Option<Effect>)
        ensures
            command_post(
                *old(self),
                *final(self),
                lowercase(first_word(text@)),
                command_arg(text@),
                r,
            ),
            final(self).input == old(self).input,
            final(self).cursor == old(self).cursor,
    {
        let (first, arg) = split_command(text);
        let cmd = to_lowercase(first.as_str());
        self.apply_command(cmd.as_str(), arg.as_str())
    }
}

} // verus!
