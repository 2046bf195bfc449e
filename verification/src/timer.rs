//! The timer: which phase it is in, how much of the phase is left, whether
//! it is running, and how many focus sessions have been completed.

use crate::config::ConfigView;
use crate::config::PomodoroConfig;
use crate::phase::Phase;
use crate::span::Span;
use crate::span::NANOS_PER_SEC;
use crate::text::minutes_seconds;
use crate::text::minutes_seconds_text;
use vstd::prelude::*;

verus! {

/// The timer as mathematical values: durations and clock readings in
/// nanoseconds, the counter unbounded.
pub struct TimerView {
    pub config: ConfigView,
    pub phase: Phase,
    /// Length given to the phase the timer is in.
    pub total: nat,
    /// What is left of that length.
    pub remaining: nat,
    pub running: bool,
    /// Focus sessions that ran down to zero. Skipped ones do not count.
    pub completed: nat,
    /// The clock reading of the last update.
    pub last_tick: nat,
}

impl TimerView {
    /// What holds of the timer at all times: the settings are valid, the
    /// phase has the length the settings give it, and no more than that
    /// length is left.
    pub open spec fn inv(self) -> bool {
        &&& self.config.valid()
        &&& self.total == self.config.duration_of(self.phase)
        &&& self.remaining <= self.total
    }

    /// The timer at the start: a full focus phase ahead, paused, nothing
    /// completed.
    pub open spec fn initial(config: ConfigView, now: nat) -> TimerView {
        TimerView {
            config,
            phase: Phase::Focus,
            total: config.focus,
            remaining: config.focus,
            running: false,
            completed: 0,
            last_tick: now,
        }
    }

    /// The timer with the current phase started over at its configured
    /// length.
    pub open spec fn reset(self) -> TimerView {
        TimerView {
            total: self.config.duration_of(self.phase),
            remaining: self.config.duration_of(self.phase),
            ..self
        }
    }

    /// The timer at the start of `phase`.
    pub open spec fn entered(self, phase: Phase) -> TimerView {
        TimerView { phase, ..self }.reset()
    }

    /// The timer with running and paused exchanged.
    pub open spec fn toggled(self) -> TimerView {
        TimerView { running: !self.running, ..self }
    }

    /// The timer after the user skipped the current phase.
    pub open spec fn skipped(self) -> TimerView {
        self.entered(self.phase.skip_target())
    }

    /// The count of completed focus sessions once the current phase has run
    /// down to zero.
    pub open spec fn completed_after_finish(self) -> nat {
        if self.phase == Phase::Focus {
            self.completed + 1
        } else {
            self.completed
        }
    }

    /// The timer after the current phase has run down to zero: the session
    /// is counted if it was focus, the next phase starts at its full
    /// length, and the timer runs.
    pub open spec fn finished(self) -> TimerView {
        TimerView {
            completed: self.completed_after_finish(),
            running: true,
            ..self
        }.entered(
            self.phase.completion_target(self.completed_after_finish(), self.config.long_every),
        )
    }

    /// The time that has passed between the last update and the clock
    /// reading `now`; zero if the clock seems to have gone back.
    pub open spec fn delta(self, now: nat) -> nat {
        if now >= self.last_tick {
            (now - self.last_tick) as nat
        } else {
            0
        }
    }

    /// Whether an update at `now` ends the current phase.
    pub open spec fn expires(self, now: nat) -> bool {
        self.running && self.delta(now) >= self.remaining
    }

    /// Whether an update at `now` asks for the alert.
    pub open spec fn rings(self, now: nat) -> bool {
        self.expires(now) && !self.config.mute
    }

    /// The timer after an update at the clock reading `now`.
    ///
    /// A paused timer only takes note of the reading. A running timer
    /// loses the time that has passed; if that is all that was left or
    /// more, the phase ends and the next one starts at its full length,
    /// whatever the excess.
    pub open spec fn ticked(self, now: nat) -> TimerView {
        if !self.running {
            TimerView { last_tick: now, ..self }
        } else if self.delta(now) >= self.remaining {
            TimerView { last_tick: now, remaining: 0, ..self }.finished()
        } else {
            TimerView {
                last_tick: now,
                remaining: (self.remaining - self.delta(now)) as nat,
                ..self
            }
        }
    }

    /// How much of the current phase has gone by.
    pub open spec fn elapsed(self) -> nat {
        if self.total >= self.remaining {
            (self.total - self.remaining) as nat
        } else {
            0
        }
    }

    /// The part of the current phase that has gone by, as numerator and
    /// denominator of a fraction, both in nanoseconds: nought for a phase of
    /// no length, else the time gone by over the length of the phase.
    pub open spec fn progress(self) -> (nat, nat) {
        if self.total == 0 {
            (0, 1)
        } else {
            (self.elapsed(), self.total)
        }
    }

    /// Whether the counter can take an update at `now` without leaving the
    /// range of `u32`.
    pub open spec fn counter_fits(self, now: nat) -> bool {
        self.expires(now) && self.phase == Phase::Focus ==> self.completed < u32::MAX
    }
}

/// A part of a whole as an exact fraction.
#[derive(Debug, Clone, Copy, PartialEq, Eq, Structural)]
pub struct Ratio {
    pub numerator: u128,
    /// Never zero in a ratio that the timer hands out.
    pub denominator: u128,
}

impl View for Ratio {
    type V = (nat, nat);

    open spec fn view(&self) -> (nat, nat) {
        (self.numerator as nat, self.denominator as nat)
    }
}

/// A Pomodoro timer.
#[derive(Debug, Clone, Copy)]
pub struct PomodoroApp {
    config: PomodoroConfig,
    phase: Phase,
    total: Span,
    remaining: Span,
    running: bool,
    completed_focus: u32,
    last_tick: Span,
}

impl View for PomodoroApp {
    type V = TimerView;

    closed spec fn view(&self) -> TimerView {
        TimerView {
            config: self.config@,
            phase: self.phase,
            total: self.total@,
            remaining: self.remaining@,
            running: self.running,
            completed: self.completed_focus as nat,
            last_tick: self.last_tick@,
        }
    }
}

impl PomodoroApp {
    /// What holds of every timer there is: valid settings, a phase of the
    /// length that the settings give it, and no more than that length left.
    /// No caller has to establish it, and no method can break it.
    #[verifier::type_invariant]
    pub open spec fn well_formed(self) -> bool {
        self@.inv()
    }

    /// A timer on `config`, paused at the start of a focus phase. `now` is
    /// the reading of the clock at this moment.
    pub fn new(config: PomodoroConfig, now: Span) -> (app: PomodoroApp)
        requires
            config@.valid(),
        ensures
            app@ == TimerView::initial(config@, now@),
            app@.inv(),
    {
        let total = config.focus;
        PomodoroApp {
            config,
            phase: Phase::Focus,
            total,
            remaining: total,
            running: false,
            completed_focus: 0,
            last_tick: now,
        }
    }

    /// Starts the current phase over at its configured length. Phase,
    /// running state and counter stay as they are.
    pub fn reset_current(&mut self)
        ensures
            final(self)@ == old(self)@.reset(),
            final(self)@.phase == old(self)@.phase,
            final(self)@.running == old(self)@.running,
            final(self)@.remaining == final(self)@.total,
            final(self)@.total == final(self)@.config.duration_of(final(self)@.phase),
            final(self)@.inv(),
    {
        self.enter(self.phase);
    }

    /// Pauses a running timer and starts a paused one.
    pub fn toggle(&mut self)
        ensures
            final(self)@ == old(self)@.toggled(),
            final(self)@.running == !old(self)@.running,
            final(self)@.inv(),
    {
        proof {
            use_type_invariant(&*self);
        }
        self.running = !self.running;
    }

    /// Leaves the current phase for the next one, which starts at its full
    /// length: a short break after focus, focus after either break. The
    /// skipped phase is not counted as completed, and the counter has no
    /// say in what comes next.
    pub fn skip(&mut self)
        ensures
            final(self)@ == old(self)@.skipped(),
            final(self)@.completed == old(self)@.completed,
            final(self)@.phase == old(self)@.phase.skip_target(),
            final(self)@.remaining == final(self)@.total,
            final(self)@.total == final(self)@.config.duration_of(final(self)@.phase),
            old(self)@.phase == Phase::LongBreak ==> final(self)@.phase == Phase::Focus
                && final(self)@.remaining == final(self)@.config.focus,
            final(self)@.inv(),
    {
        self.to_next_phase();
    }

    /// Advances the timer to the clock reading `now` and says whether the
    /// alert is to sound.
    ///
    /// A paused timer only takes note of the reading. A running timer loses
    /// the time that has passed since the last update. If that is all that
    /// was left or more, the phase ends: a focus session is counted, the
    /// next phase starts at its full length, whatever the excess, and the
    /// timer goes on running. The alert is due when a phase ends and the
    /// settings do not silence it.
    pub fn update(&mut self, now: Span) -> (ring: bool)
        requires
            old(self)@.counter_fits(now@),
        ensures
            final(self)@ == old(self)@.ticked(now@),
            ring == old(self)@.rings(now@),
            final(self)@.last_tick == now@,
            !old(self)@.running ==> final(self)@.remaining == old(self)@.remaining,
            old(self)@.running && old(self)@.delta(now@) < old(self)@.remaining
                ==> final(self)@.remaining == old(self)@.remaining - old(self)@.delta(now@),
            old(self)@.expires(now@) ==> final(self)@.running
                && final(self)@.remaining == final(self)@.total
                && final(self)@.total == final(self)@.config.duration_of(final(self)@.phase),
            old(self)@.expires(now@) && old(self)@.phase == Phase::Focus
                ==> final(self)@.completed == old(self)@.completed + 1
                && (final(self)@.phase == Phase::LongBreak
                    <==> final(self)@.completed % final(self)@.config.long_every == 0)
                && (final(self)@.phase == Phase::ShortBreak
                    <==> final(self)@.completed % final(self)@.config.long_every != 0),
            old(self)@.expires(now@) && old(self)@.phase != Phase::Focus
                ==> final(self)@.completed == old(self)@.completed
                && final(self)@.phase == Phase::Focus,
            !old(self)@.expires(now@) ==> final(self)@.completed == old(self)@.completed
                && final(self)@.phase == old(self)@.phase,
            final(self)@.inv(),
    {
        proof {
            use_type_invariant(&*self);
        }
        if !self.running {
            self.last_tick = now;
            return false;
        }
        let delta = now.saturating_sub(self.last_tick);
        self.last_tick = now;

        if delta.covers(self.remaining) {
            self.remaining = Span::zero();
            self.on_finish()
        } else {
            self.remaining = self.remaining.saturating_sub(delta);
            false
        }
    }

    /// Whether the counter can take an update at the clock reading `now`:
    /// the one thing that `update` asks of its caller.
    pub fn counter_fits(&self, now: Span) -> (fits: bool)
        ensures
            fits == self@.counter_fits(now@),
    {
        let expires = self.running && now.saturating_sub(self.last_tick).covers(self.remaining);
        !(expires && self.phase == Phase::Focus) || self.completed_focus < u32::MAX
    }

    /// Ends the current phase as run down to zero: counts the session if it
    /// was focus, enters the next phase and lets the timer run. Says
    /// whether the alert is to sound.
    fn on_finish(&mut self) -> (ring: bool)
        requires
            old(self)@.phase == Phase::Focus ==> old(self)@.completed < u32::MAX,
        ensures
            final(self)@ == old(self)@.finished(),
            ring == !old(self)@.config.mute,
            final(self)@.inv(),
    {
        proof {
            use_type_invariant(&*self);
        }
        let ring = !self.config.mute;
        match self.phase {
            Phase::Focus => {
                self.completed_focus += 1;
            },
            Phase::ShortBreak | Phase::LongBreak => {},
        }
        let next = self.phase.after_completion(self.completed_focus, self.config.long_every);
        self.enter(next);
        self.running = true;
        ring
    }

    /// Leaves the current phase as skipped: a short break follows focus,
    /// focus follows either break.
    pub fn to_next_phase(&mut self)
        ensures
            final(self)@ == old(self)@.skipped(),
            final(self)@.completed == old(self)@.completed,
            final(self)@.phase == old(self)@.phase.skip_target(),
            final(self)@.remaining == final(self)@.total,
            final(self)@.total == final(self)@.config.duration_of(final(self)@.phase),
            final(self)@.inv(),
    {
        self.enter(self.phase.after_skip());
    }

    /// What is left of the current phase as minutes and seconds, `MM:SS`,
    /// fractions of a second dropped.
    pub fn formatted_remaining(&self) -> (text: String)
        ensures
            text@ == minutes_seconds(self@.remaining / (NANOS_PER_SEC as nat)),
    {
        minutes_seconds_text(self.remaining.as_secs())
    }

    /// The part of the current phase that has gone by, as an exact
    /// fraction between 0 and 1: the time gone by over the length of the
    /// phase, both in nanoseconds. For a phase of no length it is 0, as 0
    /// over 1. It is 0 while all of the phase is left and 1 once nothing is
    /// left.
    pub fn progress_ratio(&self) -> (ratio: Ratio)
        ensures
            ratio@ == self@.progress(),
            ratio.denominator > 0,
            ratio.numerator <= ratio.denominator,
            self@.total == 0 ==> ratio.numerator == 0,
            self@.total > 0 ==> ratio.denominator == self@.total,
            self@.total > 0 && self@.remaining <= self@.total ==> ratio.numerator == self@.total
                - self@.remaining,
            self@.remaining == self@.total ==> ratio.numerator == 0,
            self@.total > 0 && self@.remaining == 0 ==> ratio.numerator == ratio.denominator,
    {
        if self.total.is_zero() {
            return Ratio { numerator: 0, denominator: 1 };
        }
        let elapsed = self.total.saturating_sub(self.remaining);
        Ratio { numerator: elapsed.as_nanos(), denominator: self.total.as_nanos() }
    }

    /// The settings the timer runs on.
    pub fn config(&self) -> (config: PomodoroConfig)
        ensures
            config@ == self@.config,
            config@.valid(),
    {
        proof {
            use_type_invariant(self);
        }
        self.config
    }

    /// The phase the timer is in.
    pub fn phase(&self) -> (phase: Phase)
        ensures
            phase == self@.phase,
    {
        self.phase
    }

    /// The length given to the current phase: the one that the settings
    /// give it.
    pub fn total(&self) -> (span: Span)
        ensures
            span@ == self@.total,
            span@ == self@.config.duration_of(self@.phase),
    {
        proof {
            use_type_invariant(self);
        }
        self.total
    }

    /// What is left of the current phase: no more than its length.
    pub fn remaining(&self) -> (span: Span)
        ensures
            span@ == self@.remaining,
            0 <= span@ <= self@.total,
    {
        proof {
            use_type_invariant(self);
        }
        self.remaining
    }

    /// Whether the timer is running.
    pub fn is_running(&self) -> (running: bool)
        ensures
            running == self@.running,
    {
        self.running
    }

    /// The number of focus sessions that ran down to zero.
    pub fn completed_focus(&self) -> (count: u32)
        ensures
            count == self@.completed,
    {
        self.completed_focus
    }

    /// The clock reading of the last update.
    pub fn last_tick(&self) -> (reading: Span)
        ensures
            reading@ == self@.last_tick,
    {
        self.last_tick
    }

    /// Puts the timer at the start of `phase`, with the length that the
    /// settings give it.
    fn enter(&mut self, phase: Phase)
        ensures
            final(self)@ == old(self)@.entered(phase),
            final(self)@.inv(),
    {
        proof {
            use_type_invariant(&*self);
        }
        let length = self.config.duration_of(phase);
        *self = PomodoroApp { phase, total: length, remaining: length, ..*self };
    }
}

} // verus!
