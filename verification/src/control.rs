//! What the interactive loop decides: which command a key stands for, what
//! a command does to the timer, what one pass of the loop does, and when a
//! new frame is due.

use crate::span::Span;
use crate::span::NANOS_PER_MILLI;
use crate::timer::PomodoroApp;
use crate::timer::TimerView;
use vstd::prelude::*;

verus! {

/// Milliseconds that have to pass between two frames.
pub const FRAME_INTERVAL_MILLIS: u64 = 16;

/// The keys that the timer tells apart.
#[derive(Debug, Clone, Copy, PartialEq, Eq, Structural)]
pub enum Key {
    /// A key that stands for a character, upper and lower case apart.
    Char(char),
    /// The escape key.
    Esc,
    /// The arrow to the right.
    Right,
    /// Any other key.
    Other,
}

/// One event of the keyboard.
#[derive(Debug, Clone, Copy, PartialEq, Eq, Structural)]
pub struct KeyStroke {
    pub key: Key,
    /// Whether the control modifier was held.
    pub control: bool,
    /// Whether the key went down. A release or a repeat is no press.
    pub pressed: bool,
}

/// What the user can ask of the timer.
#[derive(Debug, Clone, Copy, PartialEq, Eq, Structural)]
pub enum Command {
    Quit,
    Toggle,
    Skip,
    Reset,
}

/// What one pass of the loop leaves for its caller to do.
#[derive(Debug, Clone, Copy, PartialEq, Eq, Structural)]
pub enum Turn {
    /// Leave the loop.
    Quit,
    /// Go on, after sounding the alert if `ring` is set.
    Continue { ring: bool },
}

/// The command bound to a key event, if any.
///
/// Only presses count. `q` and escape quit, and so does `c` with control;
/// space toggles; `n` and the right arrow skip; `r` resets. Everything else
/// is bound to nothing.
pub open spec fn binding(stroke: KeyStroke) -> Option<Command> {
    if !stroke.pressed {
        None
    } else {
        match stroke.key {
            Key::Char(c) => if c == 'q' || (c == 'c' && stroke.control) {
                Some(Command::Quit)
            } else if c == ' ' {
                Some(Command::Toggle)
            } else if c == 'n' {
                Some(Command::Skip)
            } else if c == 'r' {
                Some(Command::Reset)
            } else {
                None
            },
            Key::Esc => Some(Command::Quit),
            Key::Right => Some(Command::Skip),
            Key::Other => None,
        }
    }
}

/// The command that an input of the loop stands for: none where no event
/// came in time.
pub open spec fn command_of(input: Option<KeyStroke>) -> Option<Command> {
    match input {
        Some(stroke) => binding(stroke),
        None => None,
    }
}

impl TimerView {
    /// The timer after `command`. Quitting leaves it as it is.
    pub open spec fn applied(self, command: Command) -> TimerView {
        match command {
            Command::Quit => self,
            Command::Toggle => self.toggled(),
            Command::Skip => self.skipped(),
            Command::Reset => self.reset(),
        }
    }

    /// The timer after the input phase of one pass of the loop.
    pub open spec fn after_input(self, input: Option<KeyStroke>) -> TimerView {
        match command_of(input) {
            Some(command) => self.applied(command),
            None => self,
        }
    }

    /// The timer after one pass of the loop: the command that `input`
    /// stands for is carried out and then, unless it was to quit, the timer
    /// is advanced to the clock reading `now`, input or no input.
    pub open spec fn turned(self, input: Option<KeyStroke>, now: nat) -> TimerView {
        if command_of(input) == Some(Command::Quit) {
            self
        } else {
            self.after_input(input).ticked(now)
        }
    }

    /// What one pass of the loop leaves for its caller to do.
    pub open spec fn turn_outcome(self, input: Option<KeyStroke>, now: nat) -> Turn {
        if command_of(input) == Some(Command::Quit) {
            Turn::Quit
        } else {
            Turn::Continue { ring: self.after_input(input).rings(now) }
        }
    }

    /// Whether the counter can take one pass of the loop without leaving
    /// the range of `u32`.
    pub open spec fn turn_fits(self, input: Option<KeyStroke>, now: nat) -> bool {
        command_of(input) != Some(Command::Quit) ==> self.after_input(input).counter_fits(now)
    }
}

/// The command bound to a key event, if any.
pub fn command_for(stroke: KeyStroke) -> (command: Option<Command>)
    ensures
        command == binding(stroke),
{
    if !stroke.pressed {
        return None;
    }
    match stroke.key {
        Key::Char(c) => {
            if c == 'q' || (c == 'c' && stroke.control) {
                Some(Command::Quit)
            } else if c == ' ' {
                Some(Command::Toggle)
            } else if c == 'n' {
                Some(Command::Skip)
            } else if c == 'r' {
                Some(Command::Reset)
            } else {
                None
            }
        },
        Key::Esc => Some(Command::Quit),
        Key::Right => Some(Command::Skip),
        Key::Other => None,
    }
}

/// Whether a new frame is due when `since_last_frame` has passed since the
/// last one was drawn.
pub fn frame_due(since_last_frame: Span) -> (due: bool)
    ensures
        due == (since_last_frame@ >= FRAME_INTERVAL_MILLIS * NANOS_PER_MILLI),
{
    since_last_frame.covers(Span::from_millis(FRAME_INTERVAL_MILLIS))
}

impl PomodoroApp {
    /// Carries out `command` on the timer and says whether the loop is to
    /// end.
    pub fn dispatch(&mut self, command: Command) -> (quit: bool)
        ensures
            final(self)@ == old(self)@.applied(command),
            quit == (command == Command::Quit),
            final(self)@.inv(),
    {
        proof {
            use_type_invariant(&*self);
        }
        match command {
            Command::Quit => true,
            Command::Toggle => {
                self.toggle();
                false
            },
            Command::Skip => {
                self.skip();
                false
            },
            Command::Reset => {
                self.reset_current();
                false
            },
        }
    }

    /// Whether the counter can take one pass of the loop on `input` at the
    /// clock reading `now`: the one thing that `turn` asks of its caller.
    pub fn turn_fits(&self, input: Option<KeyStroke>, now: Span) -> (fits: bool)
        ensures
            fits == self@.turn_fits(input, now@),
    {
        let command = match input {
            Some(stroke) => command_for(stroke),
            None => None,
        };
        let mut probe = *self;
        match command {
            Some(command) => {
                if probe.dispatch(command) {
                    return true;
                }
            },
            None => {},
        }
        probe.counter_fits(now)
    }

    /// One pass of the loop: carries out the command that `input` stands
    /// for, if any, and then, unless that was to quit, advances the timer to
    /// the clock reading `now`, whether or not there was input.
    pub fn turn(&mut self, input: Option<KeyStroke>, now: Span) -> (outcome: Turn)
        requires
            old(self)@.turn_fits(input, now@),
        ensures
            final(self)@ == old(self)@.turned(input, now@),
            outcome == old(self)@.turn_outcome(input, now@),
            final(self)@.inv(),
    {
        let command = match input {
            Some(stroke) => command_for(stroke),
            None => None,
        };
        match command {
            Some(command) => {
                if self.dispatch(command) {
                    return Turn::Quit;
                }
            },
            None => {},
        }
        let ring = self.update(now);
        Turn::Continue { ring }
    }
}

} // verus!
