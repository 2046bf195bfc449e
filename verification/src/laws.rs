//! What holds of the timer over whole runs: of every state that it can
//! reach, and of every way a phase can begin.

use crate::config::ConfigView;
use crate::control::Command;
use crate::phase::Phase;
use crate::timer::TimerView;
use vstd::prelude::*;

verus! {

/// One thing that happens to the timer: a command of the user, or an update
/// at some reading of the clock.
pub enum Event {
    Command(Command),
    Tick(nat),
}

impl TimerView {
    /// The timer after `event`.
    pub open spec fn after(self, event: Event) -> TimerView {
        match event {
            Event::Command(command) => self.applied(command),
            Event::Tick(now) => self.ticked(now),
        }
    }

    /// The timer after `events`, first to last.
    pub open spec fn after_all(self, events: Seq<Event>) -> TimerView
        decreases events.len(),
    {
        if events.len() == 0 {
            self
        } else {
            self.after_all(events.drop_last()).after(events.last())
        }
    }
}

/// No event leads out of the states in which the settings are valid, the
/// phase has its configured length and no more than that length is left.
pub proof fn lemma_event_keeps_invariant(timer: TimerView, event: Event)
    requires
        timer.inv(),
    ensures
        timer.after(event).inv(),
        timer.after(event).config == timer.config,
{
}

/// In every state that the timer reaches from its start, by whatever
/// commands and updates in whatever order and at whatever clock readings,
/// what is left of the phase lies between zero and the length of the phase,
/// and that length is the one the settings give the phase.
pub proof fn lemma_remaining_within_total(config: ConfigView, start: nat, events: Seq<Event>)
    requires
        config.valid(),
    ensures
        TimerView::initial(config, start).after_all(events).inv(),
        0 <= TimerView::initial(config, start).after_all(events).remaining
            <= TimerView::initial(config, start).after_all(events).total,
    decreases events.len(),
{
    if events.len() > 0 {
        lemma_remaining_within_total(config, start, events.drop_last());
        lemma_event_keeps_invariant(
            TimerView::initial(config, start).after_all(events.drop_last()),
            events.last(),
        );
    }
}

/// The phases alternate: whatever happens, the timer either stays in its
/// phase or goes from focus to a break or from a break to focus. It never
/// goes from one break to the other.
pub proof fn lemma_focus_and_breaks_alternate(timer: TimerView, event: Event)
    ensures
        timer.after(event).phase == timer.phase || (timer.phase == Phase::Focus
            <==> timer.after(event).phase != Phase::Focus),
{
}

/// A long break is entered in one way only: by a focus phase running down
/// to zero when the count of completed sessions, that one included, is a
/// multiple of the configured interval.
pub proof fn lemma_long_break_is_earned(timer: TimerView, event: Event)
    requires
        timer.after(event).phase == Phase::LongBreak,
        timer.phase != Phase::LongBreak,
    ensures
        event is Tick,
        timer.phase == Phase::Focus,
        timer.expires(event->Tick_0),
        (timer.completed + 1) % timer.config.long_every == 0,
{
}

/// The counter of completed focus sessions moves in one way only: an
/// update that ends a focus phase adds exactly one to it. No command changes
/// it, skipping included, and no other update does.
pub proof fn lemma_counter_counts_focus_completions(timer: TimerView, event: Event)
    ensures
        timer.after(event).completed == if event matches Event::Tick(now) && timer.expires(now)
            && timer.phase == Phase::Focus {
            timer.completed + 1
        } else {
            timer.completed
        },
{
}

/// Skipping never changes the counter of completed focus sessions, whatever
/// phase is skipped.
pub proof fn lemma_skip_keeps_counter(timer: TimerView)
    ensures
        timer.skipped().completed == timer.completed,
{
}

/// When a focus phase runs down to zero the counter goes up by exactly one,
/// and the next phase is a long break if the new count is a multiple of the
/// configured interval, a short break if it is not. When a break runs down
/// to zero the counter stays and focus follows.
pub proof fn lemma_completion_transition(timer: TimerView)
    ensures
        timer.phase == Phase::Focus ==> timer.finished().completed == timer.completed + 1,
        timer.phase == Phase::Focus ==> (timer.finished().phase == Phase::LongBreak
            <==> timer.finished().completed % timer.config.long_every == 0),
        timer.phase == Phase::Focus ==> (timer.finished().phase == Phase::ShortBreak
            <==> timer.finished().completed % timer.config.long_every != 0),
        timer.phase != Phase::Focus ==> timer.finished().completed == timer.completed,
        timer.phase != Phase::Focus ==> timer.finished().phase == Phase::Focus,
        timer.finished().running,
{
}

/// However a phase begins, by a skip, by the phase before it running down
/// to zero, or by a reset of the current phase, all of its configured length
/// is left.
pub proof fn lemma_phase_begins_full(timer: TimerView, now: nat)
    ensures
        timer.skipped().remaining == timer.skipped().total,
        timer.skipped().total == timer.config.duration_of(timer.skipped().phase),
        timer.finished().remaining == timer.finished().total,
        timer.finished().total == timer.config.duration_of(timer.finished().phase),
        timer.reset().remaining == timer.reset().total,
        timer.reset().total == timer.config.duration_of(timer.reset().phase),
        timer.reset().phase == timer.phase,
        timer.expires(now) ==> timer.ticked(now).remaining == timer.ticked(now).total,
        timer.expires(now) ==> timer.ticked(now).total == timer.config.duration_of(
            timer.ticked(now).phase,
        ),
{
}

/// An update of a paused timer leaves what is left of the phase as it is,
/// however much time has passed; it changes nothing but the clock reading
/// that the timer keeps.
pub proof fn lemma_paused_update_keeps_remaining(timer: TimerView, now: nat)
    requires
        !timer.running,
    ensures
        timer.ticked(now).remaining == timer.remaining,
        timer.ticked(now) == (TimerView { last_tick: now, ..timer }),
{
}

/// An update of a running timer after at least as much time as was left
/// ends the phase exactly as if the time left had run down to zero: the
/// excess does not shorten the next phase, which has its full length ahead.
pub proof fn lemma_overshoot_is_dropped(timer: TimerView, now: nat)
    requires
        timer.running,
        timer.delta(now) >= timer.remaining,
    ensures
        timer.ticked(now) == (TimerView { last_tick: now, remaining: 0, ..timer }).finished(),
        timer.ticked(now).remaining == timer.config.duration_of(timer.ticked(now).phase),
        timer.ticked(now).running,
{
}

/// A skip out of a long break always leads to focus with the whole focus
/// length left, whatever the counter of completed sessions says.
pub proof fn lemma_skip_from_long_break(timer: TimerView)
    requires
        timer.phase == Phase::LongBreak,
    ensures
        timer.skipped().phase == Phase::Focus,
        timer.skipped().remaining == timer.config.focus,
        timer.skipped().total == timer.config.focus,
{
}

/// The part of a phase that has gone by is a fraction between 0 and 1 in
/// every state that the timer can reach: 0 for a phase of no length, 0 while
/// all of the phase is left, 1 once nothing is left of a phase that has a
/// length, and the larger the less is left.
pub proof fn lemma_progress_between_zero_and_one(timer: TimerView, later: TimerView)
    requires
        timer.inv(),
    ensures
        timer.progress().1 > 0,
        0 <= timer.progress().0 <= timer.progress().1,
        timer.total == 0 ==> timer.progress().0 == 0,
        timer.remaining == timer.total ==> timer.progress().0 == 0,
        timer.total > 0 && timer.remaining == 0 ==> timer.progress().0 == timer.progress().1,
        later.inv() && later.total == timer.total && later.remaining <= timer.remaining
            ==> later.progress().1 == timer.progress().1 && later.progress().0
            >= timer.progress().0,
{
}

} // verus!
