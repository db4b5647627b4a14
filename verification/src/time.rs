//! Timers: a goal, a clock reading taken at the start, and a pause that
//! extends the goal instead of stopping the clock.

use crate::clock::{
    duration_as_nanos, duration_from_secs, duration_nanos, duration_saturating_add,
    instant_elapsed, instant_now, max_duration_nanos, saturating_nanos,
};
use instant::Instant;
use std::time::Duration;
use vstd::prelude::*;

verus! {

/// What a timer is, in nanoseconds: the goal it was made with, the goal it
/// currently runs against, whether it was started and whether it is paused.
pub struct TimerView {
    pub base: nat,
    pub goal: nat,
    pub started: bool,
    pub paused: bool,
}

impl TimerView {
    /// The current goal never lies below the goal the timer was made with.
    pub open spec fn wf(self) -> bool {
        self.goal >= self.base
    }

    /// A timer that was made and never started.
    pub open spec fn fresh(goal: nat) -> TimerView {
        TimerView { base: goal, goal, started: false, paused: false }
    }

    /// The timer after `start`: running against the goal it was made with,
    /// not paused.
    pub open spec fn start(self) -> TimerView {
        TimerView { base: self.base, goal: self.base, started: true, paused: false }
    }

    /// The timer after `pause`.
    pub open spec fn pause(self) -> TimerView {
        TimerView { paused: true, ..self }
    }

    /// The timer after a `resume` that found it paused for `waited`
    /// nanoseconds: the goal moves out by the time spent paused.
    pub open spec fn resume(self, waited: nat) -> TimerView {
        if self.paused {
            TimerView { goal: saturating_nanos(self.goal, waited), paused: false, ..self }
        } else {
            self
        }
    }

    /// What every `resume` brings about, however long the pause was.
    pub open spec fn resumes_to(self, next: TimerView) -> bool {
        &&& next.base == self.base
        &&& next.started == self.started
        &&& !next.paused
        &&& next.goal >= self.goal
        &&& !self.paused ==> next.goal == self.goal
    }

    /// Whether the timer counts as completed when `elapsed` is the reading of
    /// its clock: the goal is reached and the timer is not paused.
    pub open spec fn completed(self, elapsed: Option<nat>) -> bool {
        match elapsed {
            Some(e) => self.goal <= e && !self.paused,
            None => false,
        }
    }
}

/// A timer that was started and is not paused is completed exactly from the
/// moment on at which the clock reaches the goal it was made with; while it
/// is paused it is not completed at any reading, and neither is a timer that
/// was never started.
pub proof fn lemma_completed_from_goal_on(timer: TimerView, elapsed: nat)
    ensures
        timer.start().completed(Some(elapsed)) == (elapsed >= timer.base),
        !timer.start().pause().completed(Some(elapsed)),
        !TimerView::fresh(timer.base).completed(None),
{
}

/// Pausing a timer and resuming it after `waited` nanoseconds moves its goal
/// out by exactly `waited`, as long as the new goal is a span that a
/// `Duration` can hold, and never moves it in. The timer is running again
/// afterwards, and its clock was not touched.
pub proof fn lemma_pause_resume_extends_goal(timer: TimerView, waited: nat)
    requires
        timer.goal <= max_duration_nanos(),
    ensures
        timer.goal + waited <= max_duration_nanos() ==> timer.pause().resume(waited).goal
            == timer.goal + waited,
        timer.pause().resume(waited).goal == saturating_nanos(timer.goal, waited),
        timer.pause().resume(waited).goal >= timer.goal,
        !timer.pause().resume(waited).paused,
        timer.pause().resume(waited).started == timer.started,
        timer.pause().resume(waited).base == timer.base,
        timer.pause().resumes_to(timer.pause().resume(waited)),
{
}

/// The current goal of a timer never lies below the goal it was made with:
/// this holds of a fresh timer and after a start, and a pause or a resume
/// keeps it.
pub proof fn lemma_goal_never_below_base(timer: TimerView, next: TimerView, goal: nat)
    ensures
        TimerView::fresh(goal).wf(),
        timer.start().wf(),
        timer.wf() ==> timer.pause().wf(),
        timer.wf() && timer.resumes_to(next) ==> next.wf(),
{
}

/// The nanoseconds of an optional span.
pub open spec fn elapsed_nanos(elapsed: Option<Duration>) -> Option<nat> {
    match elapsed {
        Some(e) => Some(duration_nanos(e)),
        None => None,
    }
}

/// Splits a number of seconds into whole minutes and the seconds left over,
/// as a clock face shows them.
pub fn minutes_seconds(secs: u64) -> (parts: (u64, u64))
    ensures
        parts.0 == secs / 60,
        parts.1 == secs % 60,
        parts.0 * 60 + parts.1 == secs,
{
    let mins = secs / 60;
    (mins, secs - mins * 60)
}

/// Decides completion from a goal, a clock reading and the pause flag.
pub fn goal_reached(goal: Duration, elapsed: Option<Duration>, paused: bool) -> (done: bool)
    ensures
        done == match elapsed {
            Some(e) => duration_nanos(goal) <= duration_nanos(e) && !paused,
            None => false,
        },
{
    match elapsed {
        Some(e) => duration_as_nanos(goal) <= duration_as_nanos(e) && !paused,
        None => false,
    }
}

pub trait Timer: Clone {
    spec fn view(&self) -> TimerView;

    fn from_goal(goal: Duration) -> (timer: Self)
        ensures
            timer@ == TimerView::fresh(duration_nanos(goal)),
    ;

    fn default_work_timer() -> (timer: Self)
        ensures
            timer@ == TimerView::fresh(1_500_000_000_000),
    {
        Self::from_goal(duration_from_secs(60 * 25))
    }

    fn default_break_timer() -> (timer: Self)
        ensures
            timer@ == TimerView::fresh(300_000_000_000),
    {
        Self::from_goal(duration_from_secs(60 * 5))
    }

    fn default_long_break_timer() -> (timer: Self)
        ensures
            timer@ == TimerView::fresh(1_800_000_000_000),
    {
        Self::from_goal(duration_from_secs(60 * 30))
    }

    /// Starts the clock from zero against the goal the timer was made with,
    /// and ends a pause.
    fn start(&mut self)
        ensures
            final(self)@ == old(self)@.start(),
    ;

    /// The same as `start`, unless a timer decides otherwise.
    fn reset(&mut self)
        ensures
            final(self)@ == old(self)@.start(),
    {
        self.start()
    }

    /// The time since the start: `None` until the timer is started. Time
    /// spent paused is not taken off.
    fn elapsed(&self) -> (elapsed: Option<Duration>)
        ensures
            elapsed.is_some() == self@.started,
    ;

    /// The goal the timer currently runs against.
    fn goal(&self) -> (goal: Duration)
        ensures
            duration_nanos(goal) == self@.goal,
    ;

    fn is_paused(&self) -> (paused: bool)
        ensures
            paused == self@.paused,
    ;

    /// Whether the goal is reached at the clock reading `elapsed`.
    fn is_completed_after(&self, elapsed: Option<Duration>) -> (done: bool)
        ensures
            done == self@.completed(elapsed_nanos(elapsed)),
    {
        goal_reached(self.goal(), elapsed, self.is_paused())
    }

    /// Reads the clock and decides completion. A timer that was never
    /// started, or is paused, is not completed, whatever the clock says.
    fn is_completed(&self) -> (done: bool)
        ensures
            decided_on_a_reading(self@, done),
            done ==> self@.started && !self@.paused,
            self@.started && !self@.paused && self@.goal == 0 ==> done,
    {
        let elapsed = self.elapsed();
        let done = self.is_completed_after(elapsed);
        assert(elapsed_nanos(elapsed).is_some() == self@.started);
        assert(done == self@.completed(elapsed_nanos(elapsed)));
        done
    }

    fn has_started(&self) -> (started: bool)
        ensures
            started == self@.started,
    {
        self.elapsed().is_some()
    }

    /// Pauses the timer; the clock goes on.
    fn pause(&mut self)
        ensures
            final(self)@ == old(self)@.pause(),
    ;

    /// Ends a pause and moves the goal out by the time it lasted.
    fn resume(&mut self)
        ensures
            old(self)@.resumes_to(final(self)@),
    ;
}

/// Whether `done` is what a timer decides on one reading of its clock. The
/// clock gives no reading before the start and some span after it; which
/// span is for the clock to say. So a timer that was never started, or is
/// paused, decides `false`; one that runs against a goal of zero decides
/// `true`; and any other decides as `completed` does for the span it read.
pub open spec fn decided_on_a_reading(timer: TimerView, done: bool) -> bool {
    exists|elapsed: Option<nat>|
        elapsed.is_some() == timer.started && done == #[trigger] timer.completed(elapsed)
}

/// A timer on the monotonic clock.
pub struct InstantTimer {
    start: Option<Instant>,
    paused_instant: Option<Instant>,
    current_goal: Duration,
    goal: Duration,
}

impl InstantTimer {
    pub fn new(goal: Duration) -> (timer: Self)
        ensures
            timer@ == TimerView::fresh(duration_nanos(goal)),
    {
        Self { start: None, paused_instant: None, current_goal: goal, goal }
    }

    /// Ends a pause that lasted `waited`: the goal grows by exactly that
    /// much, up to the longest span there is. Without a pause nothing changes.
    pub fn resume_after(&mut self, waited: Duration)
        ensures
            final(self)@ == old(self)@.resume(duration_nanos(waited)),
            old(self)@.resumes_to(final(self)@),
    {
        if self.paused_instant.is_some() {
            self.current_goal = duration_saturating_add(self.current_goal, waited);
            self.paused_instant = None;
        }
    }
}

impl Clone for InstantTimer {
    fn clone(&self) -> (copy: Self)
        ensures
            copy@ == self@,
    {
        Self {
            start: self.start,
            paused_instant: self.paused_instant,
            current_goal: self.current_goal,
            goal: self.goal,
        }
    }
}

impl Timer for InstantTimer {
    closed spec fn view(&self) -> TimerView {
        TimerView {
            base: duration_nanos(self.goal),
            goal: duration_nanos(self.current_goal),
            started: self.start.is_some(),
            paused: self.paused_instant.is_some(),
        }
    }

    fn from_goal(goal: Duration) -> (timer: Self) {
        Self::new(goal)
    }

    fn start(&mut self) {
        self.current_goal = self.goal;
        self.paused_instant = None;
        self.start = Some(instant_now());
    }

    fn elapsed(&self) -> (elapsed: Option<Duration>) {
        match &self.start {
            Some(start) => Some(instant_elapsed(start)),
            None => None,
        }
    }

    fn goal(&self) -> (goal: Duration) {
        self.current_goal
    }

    fn is_paused(&self) -> (paused: bool) {
        self.paused_instant.is_some()
    }

    fn pause(&mut self) {
        if !self.is_paused() {
            self.paused_instant = Some(instant_now());
        }
    }

    fn resume(&mut self) {
        let waited = match &self.paused_instant {
            Some(pause_instant) => Some(instant_elapsed(pause_instant)),
            None => None,
        };
        match waited {
            Some(waited) => self.resume_after(waited),
            None => {},
        }
    }
}

} // verus!
