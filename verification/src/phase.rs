//! The three modes of the timer and the fixed cycle between them.

use vstd::prelude::*;

verus! {

/// The mode the timer is in.
#[derive(Debug, Clone, Copy, PartialEq, Eq, Structural)]
pub enum Phase {
    Focus,
    ShortBreak,
    LongBreak,
}

/// The colour in which a phase is shown.
#[derive(Debug, Clone, Copy, PartialEq, Eq, Structural)]
pub enum Accent {
    LightGreen,
    Cyan,
    Magenta,
}

impl Phase {
    /// The name under which the phase is shown.
    pub open spec fn label(self) -> Seq<char> {
        match self {
            Phase::Focus => "Focus"@,
            Phase::ShortBreak => "Short Break"@,
            Phase::LongBreak => "Long Break"@,
        }
    }

    /// The colour that belongs to the phase.
    pub open spec fn accent(self) -> Accent {
        match self {
            Phase::Focus => Accent::LightGreen,
            Phase::ShortBreak => Accent::Cyan,
            Phase::LongBreak => Accent::Magenta,
        }
    }

    /// The phase that a skip leads to: a break after focus, focus after
    /// either break. The count of completed sessions plays no part.
    pub open spec fn skip_target(self) -> Phase {
        match self {
            Phase::Focus => Phase::ShortBreak,
            Phase::ShortBreak => Phase::Focus,
            Phase::LongBreak => Phase::Focus,
        }
    }

    /// The phase that follows when this one has run down to zero.
    ///
    /// `completed` is the number of focus sessions completed so far, the one
    /// that just ended included. After focus comes a long break when that
    /// number is a multiple of `long_every`, a short break otherwise; after
    /// either break comes focus.
    pub open spec fn completion_target(self, completed: nat, long_every: nat) -> Phase {
        match self {
            Phase::Focus => if completed % long_every == 0 {
                Phase::LongBreak
            } else {
                Phase::ShortBreak
            },
            Phase::ShortBreak => Phase::Focus,
            Phase::LongBreak => Phase::Focus,
        }
    }

    /// The name under which the phase is shown.
    pub fn name(self) -> (text: &'static str)
        ensures
            text@ == self.label(),
    {
        match self {
            Phase::Focus => "Focus",
            Phase::ShortBreak => "Short Break",
            Phase::LongBreak => "Long Break",
        }
    }

    /// The colour that belongs to the phase.
    pub fn color(self) -> (accent: Accent)
        ensures
            accent == self.accent(),
    {
        match self {
            Phase::Focus => Accent::LightGreen,
            Phase::ShortBreak => Accent::Cyan,
            Phase::LongBreak => Accent::Magenta,
        }
    }

    /// The phase entered when the user skips this one.
    pub fn after_skip(self) -> (next: Phase)
        ensures
            next == self.skip_target(),
    {
        match self {
            Phase::Focus => Phase::ShortBreak,
            Phase::ShortBreak => Phase::Focus,
            Phase::LongBreak => Phase::Focus,
        }
    }

    /// The phase entered when this one has run down to zero, given the
    /// number of focus sessions completed so far, the one that just ended
    /// included.
    pub fn after_completion(self, completed: u32, long_every: u32) -> (next: Phase)
        requires
            long_every >= 1,
        ensures
            next == self.completion_target(completed as nat, long_every as nat),
    {
        match self {
            Phase::Focus => {
                if completed % long_every == 0 {
                    Phase::LongBreak
                } else {
                    Phase::ShortBreak
                }
            },
            Phase::ShortBreak => Phase::Focus,
            Phase::LongBreak => Phase::Focus,
        }
    }
}

} // verus!
