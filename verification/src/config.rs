//! What a session is configured with: the length of each phase, how often a
//! long break comes, and whether the alert is silenced.

use crate::phase::Phase;
use crate::span::Span;
use crate::span::NANOS_PER_MINUTE;
use vstd::prelude::*;

verus! {

/// Minutes of focus when nothing else is asked for.
pub const DEFAULT_FOCUS_MINUTES: u64 = 25;

/// Minutes of a short break when nothing else is asked for.
pub const DEFAULT_SHORT_BREAK_MINUTES: u64 = 5;

/// Minutes of a long break when nothing else is asked for.
pub const DEFAULT_LONG_BREAK_MINUTES: u64 = 15;

/// Focus sessions between two long breaks when nothing else is asked for.
pub const DEFAULT_LONG_EVERY: u32 = 4;

/// Milliseconds the loop waits for input before it updates the timer anyway,
/// when nothing else is asked for.
pub const DEFAULT_TICK_MILLIS: u64 = 200;

/// The settings of a session. They do not change while the timer runs.
#[derive(Debug, Clone, Copy, PartialEq, Eq, Structural)]
pub struct PomodoroConfig {
    /// Length of a focus phase.
    pub focus: Span,
    /// Length of a short break.
    pub short_break: Span,
    /// Length of a long break.
    pub long_break: Span,
    /// Every `long_every`-th completed focus session is followed by a long
    /// break. At least 1.
    pub long_every: u32,
    /// Whether the alert at the end of a phase is silenced.
    pub mute: bool,
}

/// The settings of a session as mathematical values, durations in
/// nanoseconds.
pub struct ConfigView {
    pub focus: nat,
    pub short_break: nat,
    pub long_break: nat,
    pub long_every: nat,
    pub mute: bool,
}

impl ConfigView {
    /// A long break has to come after some positive number of sessions.
    /// Durations are free, zero included.
    pub open spec fn valid(self) -> bool {
        self.long_every >= 1
    }

    /// The configured length of `phase`.
    pub open spec fn duration_of(self, phase: Phase) -> nat {
        match phase {
            Phase::Focus => self.focus,
            Phase::ShortBreak => self.short_break,
            Phase::LongBreak => self.long_break,
        }
    }

    /// The settings that minutes on the command line stand for.
    pub open spec fn of_minutes(
        focus_minutes: nat,
        short_break_minutes: nat,
        long_break_minutes: nat,
        long_every: nat,
        mute: bool,
    ) -> ConfigView {
        ConfigView {
            focus: focus_minutes * (NANOS_PER_MINUTE as nat),
            short_break: short_break_minutes * (NANOS_PER_MINUTE as nat),
            long_break: long_break_minutes * (NANOS_PER_MINUTE as nat),
            long_every,
            mute,
        }
    }
}

impl View for PomodoroConfig {
    type V = ConfigView;

    open spec fn view(&self) -> ConfigView {
        ConfigView {
            focus: self.focus@,
            short_break: self.short_break@,
            long_break: self.long_break@,
            long_every: self.long_every as nat,
            mute: self.mute,
        }
    }
}

impl PomodoroConfig {
    /// Settings from phase lengths given in minutes.
    pub fn from_minutes(
        focus_minutes: u64,
        short_break_minutes: u64,
        long_break_minutes: u64,
        long_every: u32,
        mute: bool,
    ) -> (config: PomodoroConfig)
        ensures
            config@ == ConfigView::of_minutes(
                focus_minutes as nat,
                short_break_minutes as nat,
                long_break_minutes as nat,
                long_every as nat,
                mute,
            ),
    {
        PomodoroConfig {
            focus: Span::from_minutes(focus_minutes),
            short_break: Span::from_minutes(short_break_minutes),
            long_break: Span::from_minutes(long_break_minutes),
            long_every,
            mute,
        }
    }

    /// Whether a timer can be run on these settings.
    pub fn is_valid(&self) -> (ok: bool)
        ensures
            ok == self@.valid(),
    {
        self.long_every >= 1
    }

    /// The configured length of `phase`.
    pub fn duration_of(&self, phase: Phase) -> (span: Span)
        ensures
            span@ == self@.duration_of(phase),
    {
        match phase {
            Phase::Focus => self.focus,
            Phase::ShortBreak => self.short_break,
            Phase::LongBreak => self.long_break,
        }
    }
}

impl Default for PomodoroConfig {
    /// 25 minutes of focus, breaks of 5 and 15 minutes, a long break after
    /// every fourth session, the alert on.
    fn default() -> (config: PomodoroConfig)
        ensures
            config@ == ConfigView::of_minutes(
                DEFAULT_FOCUS_MINUTES as nat,
                DEFAULT_SHORT_BREAK_MINUTES as nat,
                DEFAULT_LONG_BREAK_MINUTES as nat,
                DEFAULT_LONG_EVERY as nat,
                false,
            ),
            config@.valid(),
    {
        PomodoroConfig::from_minutes(
            DEFAULT_FOCUS_MINUTES,
            DEFAULT_SHORT_BREAK_MINUTES,
            DEFAULT_LONG_BREAK_MINUTES,
            DEFAULT_LONG_EVERY,
            false,
        )
    }
}

} // verus!
