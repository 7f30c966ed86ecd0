//! Events that drive the application, and the decisions of the terminal
//! reader: which terminal input becomes which event, and when reading stops.

use vstd::prelude::*;

verus! {

/// Token counts reported by the server at the end of a reply.
#[derive(Debug, Clone, Copy, PartialEq, Eq)]
pub struct Usage {
    pub input_tokens: u64,
    pub output_tokens: u64,
}

/// Bit of the Shift modifier in [`KeyPress::modifiers`].
pub const SHIFT: u8 = 0b0000_0001;

/// Bit of the Control modifier in [`KeyPress::modifiers`].
pub const CONTROL: u8 = 0b0000_0010;

/// Bit of the Alt modifier in [`KeyPress::modifiers`].
pub const ALT: u8 = 0b0000_0100;

/// The keys the input line reacts to; every other key is `Other`.
#[derive(Debug, Clone, Copy, PartialEq, Eq, Structural)]
pub enum KeyCode {
    Char(char),
    Enter,
    Backspace,
    Delete,
    Left,
    Right,
    Home,
    End,
    PageUp,
    PageDown,
    Other,
}

/// One key press: the set of held modifiers (as bits) and the key.
#[derive(Debug, Clone, Copy, PartialEq, Eq, Structural)]
pub struct KeyPress {
    pub modifiers: u8,
    pub code: KeyCode,
}

/// Events the UI loop cares about.
#[derive(Debug)]
pub enum AppEvent {
    Key(KeyPress),
    Tick,
    /// Mouse scroll delta: positive = up, negative = down.
    MouseScroll(i16),
    StreamDelta(String),
    StreamDone(Option<Usage>),
    StreamError(String),
    Resize(u16, u16),
}

/// What the terminal reader got from the terminal.
#[derive(Debug, Clone, Copy, PartialEq, Eq)]
pub enum TerminalInput {
    Key(KeyPress),
    ScrollUp,
    ScrollDown,
    /// Any other mouse event (click, move, drag).
    OtherMouse,
    Resize(u16, u16),
    /// Focus changes, pastes and the like.
    Other,
    /// Reading from the terminal failed.
    Failed,
    /// The terminal stream has ended.
    Ended,
}

/// What the terminal reader does next.
#[derive(Debug)]
pub enum ReaderStep {
    /// Send the event; stop reading if nobody receives it any more.
    Send(AppEvent),
    /// Send the event, and keep reading whether or not it was received.
    SendIgnoringFailure(AppEvent),
    /// Nothing to send; keep reading.
    Skip,
    /// Stop reading.
    Stop,
}

/// Scroll delta of one wheel step up (three lines towards older messages).
pub const WHEEL_UP: i16 = 3;

/// Scroll delta of one wheel step down (three lines towards newer messages).
pub const WHEEL_DOWN: i16 = -3;

/// The reader's decision on one terminal input.
pub open spec fn reader_step_spec(input: TerminalInput) -> ReaderStep {
    match input {
        TerminalInput::Key(k) => ReaderStep::Send(AppEvent::Key(k)),
        TerminalInput::ScrollUp => ReaderStep::Send(AppEvent::MouseScroll(WHEEL_UP)),
        TerminalInput::ScrollDown => ReaderStep::Send(AppEvent::MouseScroll(WHEEL_DOWN)),
        TerminalInput::OtherMouse => ReaderStep::Skip,
        TerminalInput::Resize(w, h) => ReaderStep::SendIgnoringFailure(AppEvent::Resize(w, h)),
        TerminalInput::Other => ReaderStep::Skip,
        TerminalInput::Failed => ReaderStep::Stop,
        TerminalInput::Ended => ReaderStep::Stop,
    }
}

/// Decides what the terminal reader does with one input: keys and wheel
/// scrolls are forwarded (the wheel as three lines up or down), resizes are
/// forwarded without caring for delivery, other input is skipped, and a
/// failed or finished terminal stream stops the reader.
pub fn reader_step(input: TerminalInput) -> (r: ReaderStep)
    ensures
        r == reader_step_spec(input),
{
    match input {
        TerminalInput::Key(k) => ReaderStep::Send(AppEvent::Key(k)),
        TerminalInput::ScrollUp => ReaderStep::Send(AppEvent::MouseScroll(WHEEL_UP)),
        TerminalInput::ScrollDown => ReaderStep::Send(AppEvent::MouseScroll(WHEEL_DOWN)),
        TerminalInput::OtherMouse => ReaderStep::Skip,
        TerminalInput::Resize(w, h) => ReaderStep::SendIgnoringFailure(AppEvent::Resize(w, h)),
        TerminalInput::Other => ReaderStep::Skip,
        TerminalInput::Failed => ReaderStep::Stop,
        TerminalInput::Ended => ReaderStep::Stop,
    }
}

/// The reader's decision when the tick timer fires first: send a tick, and
/// stop if nobody receives it.
pub fn tick_step() -> (r: ReaderStep)
    ensures
        r == ReaderStep::Send(AppEvent::Tick),
{
    ReaderStep::Send(AppEvent::Tick)
}

} // verus!
