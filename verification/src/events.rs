//! Events: what the viewer reacts to.
//!
//! The event source itself (a terminal poll with a deadline) lives outside
//! the engine. It hands over keystrokes as plain values and marks the
//! passing of time with ticks.

use vstd::prelude::*;

verus! {

/// Length of one tick of the event source, in milliseconds.
pub const TICK_RATE_MS: u64 = 200;

/// Modifier bit: no modifier key held.
pub const MOD_NONE: u8 = 0;

/// Modifier bit: shift held.
pub const MOD_SHIFT: u8 = 1;

/// Modifier bit: control held.
pub const MOD_CONTROL: u8 = 2;

/// Modifier bit: alt held.
pub const MOD_ALT: u8 = 4;

/// One item of the event stream: a keystroke, or a tick when the deadline
/// passed without one.
pub enum Event<I> {
    Input(I),
    Tick,
}

/// The key of a keystroke. Keys that the viewer has no binding for are `Other`.
#[derive(Clone, Copy, Debug, PartialEq, Eq, Structural)]
pub enum KeyCode {
    Backspace,
    Enter,
    Left,
    Right,
    Up,
    Down,
    PageUp,
    PageDown,
    Esc,
    Char(char),
    Other,
}

/// A key press: the key and the set of modifier keys held with it, as a bit
/// set of `MOD_SHIFT`, `MOD_CONTROL`, `MOD_ALT` and higher bits for any other
/// modifier.
#[derive(Clone, Copy, Debug, PartialEq, Eq, Structural)]
pub struct Keystroke {
    pub code: KeyCode,
    pub modifiers: u8,
}

impl Keystroke {
    /// A key pressed with no modifier held.
    pub open spec fn spec_plain(code: KeyCode) -> Keystroke {
        Keystroke { code, modifiers: MOD_NONE }
    }

    /// A character typed with no modifier held.
    pub open spec fn spec_character(c: char) -> Keystroke {
        Keystroke { code: KeyCode::Char(c), modifiers: MOD_NONE }
    }

    /// A character typed with exactly the control key held.
    pub open spec fn spec_control(c: char) -> Keystroke {
        Keystroke { code: KeyCode::Char(c), modifiers: MOD_CONTROL }
    }

    /// A key pressed with no modifier held.
    #[verifier::when_used_as_spec(spec_plain)]
    pub fn plain(code: KeyCode) -> (key: Keystroke)
        ensures
            key == Keystroke::spec_plain(code),
    {
        Keystroke { code, modifiers: MOD_NONE }
    }

    /// A character typed with no modifier held.
    #[verifier::when_used_as_spec(spec_character)]
    pub fn character(c: char) -> (key: Keystroke)
        ensures
            key == Keystroke::spec_character(c),
    {
        Keystroke { code: KeyCode::Char(c), modifiers: MOD_NONE }
    }

    /// A character typed with exactly the control key held.
    #[verifier::when_used_as_spec(spec_control)]
    pub fn control(c: char) -> (key: Keystroke)
        ensures
            key == Keystroke::spec_control(c),
    {
        Keystroke { code: KeyCode::Char(c), modifiers: MOD_CONTROL }
    }
}

/// How long the event source may still wait for a key, in milliseconds, when
/// `elapsed_ms` have passed since the last tick: the rest of the tick, and
/// nothing once the tick is over.
pub open spec fn remaining_wait(elapsed_ms: int) -> int {
    if elapsed_ms < 200 {
        200 - elapsed_ms
    } else {
        0
    }
}

/// How long the event source may still wait for a key, in milliseconds.
pub fn poll_timeout(elapsed_ms: u64) -> (wait: u64)
    ensures
        wait == remaining_wait(elapsed_ms as int),
{
    if elapsed_ms < TICK_RATE_MS {
        TICK_RATE_MS - elapsed_ms
    } else {
        0
    }
}

/// The outcome of one poll of the terminal.
#[derive(Clone, Copy, Debug, PartialEq, Eq, Structural)]
pub enum Polled {
    /// A key was read before the deadline.
    Key(Keystroke),
    /// Something that is no key was read before the deadline.
    Other,
    /// The deadline passed with nothing read.
    TimedOut,
}

/// The event that the outcome of a poll puts on the stream: the key if one
/// was read, a tick if the deadline passed, and nothing for input that is no
/// key. The tick starts anew whenever an event is put on the stream.
pub open spec fn polled_event(outcome: Polled) -> Option<Event<Keystroke>> {
    match outcome {
        Polled::Key(key) => Some(Event::Input(key)),
        Polled::Other => None,
        Polled::TimedOut => Some(Event::Tick),
    }
}

/// The event that the outcome of a poll puts on the stream, if any.
pub fn event_of_poll(outcome: Polled) -> (event: Option<Event<Keystroke>>)
    ensures
        event == polled_event(outcome),
{
    match outcome {
        Polled::Key(key) => Some(Event::Input(key)),
        Polled::Other => None,
        Polled::TimedOut => Some(Event::Tick),
    }
}

} // verus!
