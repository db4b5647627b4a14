//! The pomo machine: three timers, a queue of tasks and the rules by which
//! one phase follows another.

use crate::action::{PomoCommand, PomoError, PomoMessage, Transition};
use crate::command::Actor;
use crate::state::PomoState;
use crate::task::Task;
use crate::time::{Timer, TimerView};
use vstd::prelude::*;

verus! {

/// Pomo is a simple state machine with a timer for each of its timed states
/// and a queue of tasks. An application talks to it through the commands of
/// the `Actor` interface or through the methods below.
///
/// A pomo machine implements `Pomo`, `PomoData` and `PomoActions` as well as
/// `Actor`.
pub trait Pomo<TTask, TTimer>: Actor<PomoCommand<TTask>, Self::PomoOut> + PomoData<
    TTask,
    TTimer,
> + PomoActions<TTask, TTimer> where TTask: Task, TTimer: Timer {
    /// What the machine answers: a `PomoMessage`, or a `Result` of one.
    type PomoOut;

    fn start(&mut self) -> Self::PomoOut;

    fn reset(&mut self) -> Self::PomoOut;

    fn clear(&mut self) -> Self::PomoOut;

    /// Polls the machine: looks at the timer of the current state and moves
    /// on where its goal is reached.
    fn update(&mut self) -> Self::PomoOut;
}

pub trait PomoData<TTask, TTimer> where TTask: Task, TTimer: Timer {
    /// The state the machine is in.
    spec fn current_state(&self) -> PomoState;

    fn state(&self) -> (state: PomoState)
        ensures
            state == self.current_state(),
    ;

    /// The timer of the current state, where it has one.
    fn timer(&self) -> Option<&TTimer>;

    /// The task that is worked on: the first of the queue.
    fn task(&self) -> Option<&TTask>;

    fn tasks(&self) -> &[TTask];

    fn tasks_mut(&mut self) -> &mut [TTask];

    fn is_paused(&self) -> (paused: bool)
        ensures
            paused == (self.current_state() == PomoState::Paused),
    {
        self.state() == PomoState::Paused
    }

    fn is_completed(&self) -> (completed: bool)
        ensures
            completed == (self.current_state() == PomoState::Completed),
    {
        self.state() == PomoState::Completed
    }
}

pub trait PomoActions<TTask, TTimer> where TTask: Task, TTimer: Timer {
    type PomoActionOut;

    /// Enters a state and remembers the one that was left.
    fn set_state(&mut self, state: PomoState) -> Self::PomoActionOut;

    fn toggle_pause(&mut self) -> Self::PomoActionOut;

    fn pause(&mut self) -> Self::PomoActionOut;

    fn unpause(&mut self) -> Self::PomoActionOut;

    /// Leaves the current state for another, with the timers started anew.
    fn skip_to(&mut self, state: PomoState) -> Self::PomoActionOut;
}

/// The cycle count after one more work phase: it goes up by one and never
/// passes the total.
pub open spec fn counted_cycles(cycles: usize, total: usize) -> usize {
    if cycles < total {
        (cycles + 1) as usize
    } else {
        cycles
    }
}

/// The state that follows a work phase, by the cycles counted so far: the
/// end of the session, a long break after every `until_long` cycles, a short
/// break otherwise.
pub open spec fn state_after_work(cycles: usize, total: usize, until_long: usize) -> PomoState {
    if cycles == total {
        PomoState::Completed
    } else if until_long != 0 && cycles % until_long == 0 {
        PomoState::LongBreak
    } else {
        PomoState::Break
    }
}

/// A simple state machine
/// with a timer
#[derive(Debug)]
pub struct SimplePomo<TTask, TTimer> where TTask: Task, TTimer: Timer {
    pub tasks: Vec<TTask>,
    pub break_timer: TTimer,  // short break
    pub work_timer: TTimer,  // work
    pub long_break_timer: TTimer,  // long break,
    // cycle counts
    pub current_cycles: usize,
    pub cycles_until_long_break: usize,
    pub total_cycles: usize,
    pub state: PomoState,  // internal state
    pub prev_state: PomoState,
}

impl<TTask, TTimer> SimplePomo<TTask, TTimer> where TTask: Task, TTimer: Timer {
    /// What holds of a machine at rest: the cycle limits are positive, the
    /// count is within the total and has reached it once the session is
    /// completed, and a paused machine remembers a state with a timer.
    pub open spec fn wf(&self) -> bool {
        &&& self.total_cycles > 0
        &&& self.cycles_until_long_break > 0
        &&& self.current_cycles <= self.total_cycles
        &&& self.state == PomoState::Completed ==> self.current_cycles == self.total_cycles
        &&& self.state == PomoState::Paused ==> self.prev_state.has_timer()
    }

    /// `next` has the tasks, the cycle count and the cycle limits of `self`.
    pub open spec fn same_work(&self, next: &Self) -> bool {
        &&& next.tasks@ == self.tasks@
        &&& next.current_cycles == self.current_cycles
        &&& next.cycles_until_long_break == self.cycles_until_long_break
        &&& next.total_cycles == self.total_cycles
    }

    /// `next` has the timers of `self`, untouched.
    pub open spec fn same_timers(&self, next: &Self) -> bool {
        &&& next.work_timer == self.work_timer
        &&& next.break_timer == self.break_timer
        &&& next.long_break_timer == self.long_break_timer
    }

    /// The timers of `next` are those of `self`, each started anew.
    pub open spec fn timers_restarted(&self, next: &Self) -> bool {
        &&& next.work_timer@ == self.work_timer@.start()
        &&& next.break_timer@ == self.break_timer@.start()
        &&& next.long_break_timer@ == self.long_break_timer@.start()
    }

    /// `next` is `self` with nothing changed.
    pub open spec fn unchanged(&self, next: &Self) -> bool {
        &&& self.same_work(next)
        &&& self.same_timers(next)
        &&& next.state == self.state
        &&& next.prev_state == self.prev_state
    }

    /// `next` is `self` after `set_state(state)`.
    pub open spec fn state_set(&self, next: &Self, state: PomoState) -> bool {
        &&& self.same_work(next)
        &&& self.same_timers(next)
        &&& next.state == state
        &&& next.prev_state == self.state
    }

    /// `next` is `self` after `skip_to(state)`, and `msg` the answer. A state
    /// without a timer cannot be skipped to: nothing changes then.
    pub open spec fn skipped(
        &self,
        next: &Self,
        state: PomoState,
        msg: PomoMessage<TTask>,
    ) -> bool {
        if state.has_timer() {
            &&& self.same_work(next)
            &&& self.timers_restarted(next)
            &&& next.state == state
            &&& next.prev_state == self.state
            &&& msg == PomoMessage::<TTask>::transition(self.state, state)
        } else {
            &&& self.unchanged(next)
            &&& msg == PomoMessage::<TTask>::NoMessage
        }
    }

    /// `next` is `self` after `pause()`, and `msg` the answer. In a state with
    /// a timer that timer is paused and no other; in any other state nothing
    /// changes.
    pub open spec fn paused(&self, next: &Self, msg: PomoMessage<TTask>) -> bool {
        if self.state.has_timer() {
            &&& self.same_work(next)
            &&& next.state == PomoState::Paused
            &&& next.prev_state == self.state
            &&& msg == PomoMessage::<TTask>::transition(self.state, PomoState::Paused)
            &&& match self.state {
                PomoState::Working => {
                    &&& next.work_timer@ == self.work_timer@.pause()
                    &&& next.break_timer == self.break_timer
                    &&& next.long_break_timer == self.long_break_timer
                },
                PomoState::Break => {
                    &&& next.work_timer == self.work_timer
                    &&& next.break_timer@ == self.break_timer@.pause()
                    &&& next.long_break_timer == self.long_break_timer
                },
                _ => {
                    &&& next.work_timer == self.work_timer
                    &&& next.break_timer == self.break_timer
                    &&& next.long_break_timer@ == self.long_break_timer@.pause()
                },
            }
        } else {
            &&& self.unchanged(next)
            &&& msg == PomoMessage::<TTask>::transition(self.state, self.state)
        }
    }

    /// `next` is `self` after `unpause()`, and `msg` the answer. A paused
    /// machine goes back to the state it was paused in and resumes the timer
    /// of that state and no other; a machine that is not paused stays as it
    /// is.
    pub open spec fn unpaused(&self, next: &Self, msg: PomoMessage<TTask>) -> bool {
        if self.state == PomoState::Paused {
            &&& self.same_work(next)
            &&& next.state == self.prev_state
            &&& next.prev_state == PomoState::Paused
            &&& msg == PomoMessage::<TTask>::transition(PomoState::Paused, self.prev_state)
            &&& match self.prev_state {
                PomoState::Working => {
                    &&& self.work_timer@.resumes_to(next.work_timer@)
                    &&& next.break_timer == self.break_timer
                    &&& next.long_break_timer == self.long_break_timer
                },
                PomoState::Break => {
                    &&& next.work_timer == self.work_timer
                    &&& self.break_timer@.resumes_to(next.break_timer@)
                    &&& next.long_break_timer == self.long_break_timer
                },
                PomoState::LongBreak => {
                    &&& next.work_timer == self.work_timer
                    &&& next.break_timer == self.break_timer
                    &&& self.long_break_timer@.resumes_to(next.long_break_timer@)
                },
                _ => self.same_timers(next),
            }
        } else {
            &&& self.unchanged(next)
            &&& msg == PomoMessage::<TTask>::transition(self.state, self.state)
        }
    }

    /// `next` is `self` after `toggle_pause()`, and `msg` the answer.
    pub open spec fn toggled(&self, next: &Self, msg: PomoMessage<TTask>) -> bool {
        if self.state == PomoState::Paused {
            self.unpaused(next, msg)
        } else {
            self.paused(next, msg)
        }
    }

    /// `next` is `self` after a work phase that reached its goal, and `msg`
    /// the answer: one more cycle is counted, the first task of the queue is
    /// retired and travels with the message, and the state that follows is
    /// entered with its timers started anew.
    pub open spec fn work_finished(&self, next: &Self, msg: PomoMessage<TTask>) -> bool {
        let cycles = counted_cycles(self.current_cycles, self.total_cycles);
        let state = state_after_work(cycles, self.total_cycles, self.cycles_until_long_break);
        &&& next.current_cycles == cycles
        &&& next.cycles_until_long_break == self.cycles_until_long_break
        &&& next.total_cycles == self.total_cycles
        &&& next.state == state
        &&& next.prev_state == self.state
        &&& if state == PomoState::Completed {
            self.same_timers(next)
        } else {
            self.timers_restarted(next)
        }
        &&& msg matches PomoMessage::Transition(transition)
        &&& transition.from == self.state
        &&& transition.to == state
        &&& if self.tasks@.len() > 0 {
            &&& next.tasks@ == self.tasks@.remove(0)
            &&& transition.completed matches Some(task)
            &&& task.completed()
            &&& task.label() == self.tasks@[0].label()
        } else {
            &&& next.tasks@ == self.tasks@
            &&& transition.completed is None
        }
    }

    /// `next` is `self` after one poll, and `msg` the answer, where
    /// `timer_done` says whether the timer of the current state has reached
    /// its goal.
    pub open spec fn updated(
        &self,
        next: &Self,
        timer_done: bool,
        msg: PomoMessage<TTask>,
    ) -> bool {
        match self.state {
            PomoState::Pending => {
                &&& self.same_work(next)
                &&& next.work_timer@ == self.work_timer@.start()
                &&& next.break_timer == self.break_timer
                &&& next.long_break_timer == self.long_break_timer
                &&& next.state == PomoState::Working
                &&& next.prev_state == PomoState::Pending
                &&& msg == PomoMessage::<TTask>::transition(PomoState::Pending, PomoState::Working)
            },
            PomoState::Working if timer_done => self.work_finished(next, msg),
            PomoState::Break if timer_done => self.skipped(next, PomoState::Working, msg),
            PomoState::LongBreak if timer_done => self.skipped(next, PomoState::Working, msg),
            _ => {
                &&& self.unchanged(next)
                &&& msg == PomoMessage::<TTask>::NoMessage
            },
        }
    }

    /// The view of the timer of the current state, where it has one.
    pub open spec fn active_timer(&self) -> Option<TimerView> {
        match self.state {
            PomoState::Working => Some(self.work_timer@),
            PomoState::Break => Some(self.break_timer@),
            PomoState::LongBreak => Some(self.long_break_timer@),
            _ => None,
        }
    }

    /// `next` is `self` after one poll that read the clock itself, and `msg`
    /// the answer: what `updated` says for one of the two things the clock
    /// can say, and for `false` where the state has no timer or its timer
    /// was never started or is paused.
    pub open spec fn polled(&self, next: &Self, msg: PomoMessage<TTask>) -> bool {
        &&& self.updated(next, false, msg) || self.updated(next, true, msg)
        &&& match self.active_timer() {
            Some(timer) => !timer.started || timer.paused ==> self.updated(next, false, msg),
            None => self.updated(next, false, msg),
        }
    }

    /// `next` is `self` with the same timers, cycles and states; the tasks
    /// may differ.
    pub open spec fn same_but_tasks(&self, next: &Self) -> bool {
        &&& self.same_timers(next)
        &&& next.current_cycles == self.current_cycles
        &&& next.cycles_until_long_break == self.cycles_until_long_break
        &&& next.total_cycles == self.total_cycles
        &&& next.state == self.state
        &&& next.prev_state == self.prev_state
    }

    /// `next` is `self` after `reset()`: no cycle counted, not started. The
    /// tasks and the timers stay.
    pub open spec fn was_reset(&self, next: &Self) -> bool {
        &&& next.tasks@ == self.tasks@
        &&& self.same_timers(next)
        &&& next.current_cycles == 0
        &&& next.cycles_until_long_break == self.cycles_until_long_break
        &&& next.total_cycles == self.total_cycles
        &&& next.state == PomoState::NotStarted
        &&& next.prev_state == PomoState::NotStarted
    }

    /// `next` is `self` after `clear()`: as after `reset()`, and the queue of
    /// tasks is empty.
    pub open spec fn was_cleared(&self, next: &Self) -> bool {
        &&& next.tasks@ == Seq::<TTask>::empty()
        &&& self.same_timers(next)
        &&& next.current_cycles == 0
        &&& next.cycles_until_long_break == self.cycles_until_long_break
        &&& next.total_cycles == self.total_cycles
        &&& next.state == PomoState::NotStarted
        &&& next.prev_state == PomoState::NotStarted
    }

    /// Every operation keeps a well-formed machine well-formed: `set_state`
    /// where the state it enters is open to the machine, the others always.
    pub proof fn lemma_operations_keep_wf(
        &self,
        next: &Self,
        state: PomoState,
        timer_done: bool,
        msg: PomoMessage<TTask>,
    )
        requires
            self.wf(),
        ensures
            self.updated(next, timer_done, msg) ==> next.wf(),
            self.polled(next, msg) ==> next.wf(),
            self.paused(next, msg) ==> next.wf(),
            self.unpaused(next, msg) ==> next.wf(),
            self.toggled(next, msg) ==> next.wf(),
            self.skipped(next, state, msg) ==> next.wf(),
            self.was_reset(next) ==> next.wf(),
            self.was_cleared(next) ==> next.wf(),
            self.same_but_tasks(next) ==> next.wf(),
            self.state_set(next, state) && (state == PomoState::Completed ==> self.current_cycles
                == self.total_cycles) && (state == PomoState::Paused ==> self.state.has_timer())
                ==> next.wf(),
    {
    }

    /// Toggling the pause during a break pauses the break timer and leaves
    /// the other two timers as they are; toggling once more resumes the
    /// break timer, again leaves the other two as they are, and brings the
    /// machine back to the break. Tasks and cycle counts stay throughout.
    pub proof fn lemma_pause_in_break_round_trip(
        &self,
        paused: &Self,
        first: PomoMessage<TTask>,
        resumed: &Self,
        second: PomoMessage<TTask>,
    )
        requires
            self.state == PomoState::Break,
            self.toggled(paused, first),
            paused.toggled(resumed, second),
        ensures
            paused.state == PomoState::Paused,
            paused.break_timer@ == self.break_timer@.pause(),
            paused.break_timer@.paused,
            paused.work_timer == self.work_timer,
            paused.long_break_timer == self.long_break_timer,
            first == PomoMessage::<TTask>::transition(PomoState::Break, PomoState::Paused),
            resumed.state == PomoState::Break,
            !resumed.break_timer@.paused,
            resumed.break_timer@.goal >= self.break_timer@.goal,
            resumed.work_timer == self.work_timer,
            resumed.long_break_timer == self.long_break_timer,
            second == PomoMessage::<TTask>::transition(PomoState::Paused, PomoState::Break),
            self.same_work(resumed),
            self.wf() ==> paused.wf() && resumed.wf(),
    {
    }

    /// A machine of eight cycles with a long break after every fourth, not
    /// started.
    pub fn new(
        tasks: Vec<TTask>,
        work_timer: TTimer,
        break_timer: TTimer,
        long_break_timer: TTimer,
    ) -> (pomo: Self)
        ensures
            pomo.wf(),
            pomo.tasks == tasks,
            pomo.work_timer == work_timer,
            pomo.break_timer == break_timer,
            pomo.long_break_timer == long_break_timer,
            pomo.total_cycles == 8,
            pomo.cycles_until_long_break == 4,
            pomo.current_cycles == 0,
            pomo.state == PomoState::NotStarted,
            pomo.prev_state == PomoState::NotStarted,
    {
        Self {
            tasks,
            work_timer,
            break_timer,
            long_break_timer,
            total_cycles: 8,
            cycles_until_long_break: 4,
            current_cycles: 0,
            state: PomoState::default(),
            prev_state: PomoState::default(),
        }
    }

    /// Puts a task at the end of the queue.
    pub fn add_task(&mut self, task: TTask)
        ensures
            final(self).tasks@ == old(self).tasks@.push(task),
            final(self).tasks@.len() == old(self).tasks@.len() + 1,
            final(self).tasks@.last() == task,
            old(self).same_but_tasks(final(self)),
    {
        self.tasks.push(task);
    }

    /// Takes the task at `index` out of the queue and hands it over. Where
    /// there is no such task, nothing changes and the error says so.
    pub fn remove_task(&mut self, index: usize) -> (removed: Result<TTask, PomoError>)
        ensures
            removed.is_ok() == (index < old(self).tasks@.len()),
            removed matches Ok(task) ==> task == old(self).tasks@[index as int] && final(self).tasks@ == old(self).tasks@.remove(index as int),
            removed matches Err(error) ==> error == PomoError::InvalidTaskIndex && old(self).unchanged(
                final(self),
            ),
            old(self).same_but_tasks(final(self)),
    {
        if index < self.tasks.len() {
            Ok(self.tasks.remove(index))
        } else {
            Err(PomoError::InvalidTaskIndex)
        }
    }

    /// One poll, given whether the timer of the current state has reached
    /// its goal.
    pub fn update_after(&mut self, timer_done: bool) -> (msg: PomoMessage<TTask>)
        ensures
            old(self).updated(final(self), timer_done, msg),
            old(self).wf() ==> final(self).wf(),
    {
        match self.state {
            PomoState::NotStarted => PomoMessage::NoMessage,
            PomoState::Pending => {
                // start the timer and change state
                self.work_timer.reset();
                self.set_state(PomoState::Working)
            },
            PomoState::Working => self.update_working(timer_done),
            PomoState::Break => self.update_break(timer_done),
            PomoState::LongBreak => self.update_long_break(timer_done),
            PomoState::Paused | PomoState::Completed => PomoMessage::NoMessage,
        }
    }

    fn update_working(&mut self, timer_done: bool) -> (msg: PomoMessage<TTask>)
        requires
            old(self).state == PomoState::Working,
        ensures
            old(self).updated(final(self), timer_done, msg),
            old(self).wf() ==> final(self).wf(),
    {
        if timer_done {
            if self.current_cycles < self.total_cycles {
                self.current_cycles += 1;
            }
            // remove first task and make it completed!

            let completed = if !self.tasks.is_empty() {
                let mut comp = self.tasks.remove(0);
                comp.complete();
                Some(comp)
            } else {
                None
            };

            // either long or regular break
            let msg = if self.current_cycles == self.total_cycles {
                // DONE!
                self.set_state(PomoState::Completed)
            } else if self.cycles_until_long_break != 0 && self.current_cycles
                % self.cycles_until_long_break == 0 {
                self.skip_to(PomoState::LongBreak)
            } else {
                self.skip_to(PomoState::Break)
            };
            // if we did transition, set the completed task
            match msg {
                PomoMessage::Transition(transition) => PomoMessage::Transition(
                    Transition { from: transition.from, to: transition.to, completed },
                ),
                other => other,
            }
        } else {
            PomoMessage::NoMessage
        }
    }

    fn update_break(&mut self, timer_done: bool) -> (msg: PomoMessage<TTask>)
        requires
            old(self).state == PomoState::Break,
        ensures
            old(self).updated(final(self), timer_done, msg),
            old(self).wf() ==> final(self).wf(),
    {
        if timer_done {
            self.skip_to(PomoState::Working)
        } else {
            PomoMessage::NoMessage
        }
    }

    fn update_long_break(&mut self, timer_done: bool) -> (msg: PomoMessage<TTask>)
        requires
            old(self).state == PomoState::LongBreak,
        ensures
            old(self).updated(final(self), timer_done, msg),
            old(self).wf() ==> final(self).wf(),
    {
        if timer_done {
            self.skip_to(PomoState::Working)
        } else {
            PomoMessage::NoMessage
        }
    }
}

impl<TTask, TTimer> Default for SimplePomo<TTask, TTimer> where TTask: Task, TTimer: Timer {
    /// A machine without tasks, with 25 minutes of work, 5 minutes of break
    /// and 30 minutes of long break.
    fn default() -> (pomo: Self)
        ensures
            pomo.wf(),
            pomo.tasks@ == Seq::<TTask>::empty(),
            pomo.work_timer@ == TimerView::fresh(1_500_000_000_000),
            pomo.break_timer@ == TimerView::fresh(300_000_000_000),
            pomo.long_break_timer@ == TimerView::fresh(1_800_000_000_000),
            pomo.total_cycles == 8,
            pomo.cycles_until_long_break == 4,
            pomo.current_cycles == 0,
            pomo.state == PomoState::NotStarted,
            pomo.prev_state == PomoState::NotStarted,
    {
        Self::new(
            Vec::new(),
            TTimer::default_work_timer(),
            TTimer::default_break_timer(),
            TTimer::default_long_break_timer(),
        )
    }
}

impl<TTask, TTimer> Actor<PomoCommand<TTask>, PomoMessage<TTask>> for SimplePomo<
    TTask,
    TTimer,
> where TTask: Task, TTimer: Timer {
    /// Carries out one command. A task that cannot be removed is answered
    /// with `Failed`; every other command with the answer of the operation
    /// it names.
    fn execute(&mut self, command: PomoCommand<TTask>) -> (msg: PomoMessage<TTask>)
        ensures
            old(self).wf() ==> final(self).wf(),
            match command {
                PomoCommand::AddTask(task) => {
                    &&& final(self).tasks@ == old(self).tasks@.push(task)
                    &&& old(self).same_but_tasks(final(self))
                    &&& msg == PomoMessage::<TTask>::Executed
                },
                PomoCommand::RemoveTask(index) => if index < old(self).tasks@.len() {
                    &&& final(self).tasks@ == old(self).tasks@.remove(index as int)
                    &&& old(self).same_but_tasks(final(self))
                    &&& msg == PomoMessage::<TTask>::Executed
                } else {
                    &&& old(self).unchanged(final(self))
                    &&& msg == PomoMessage::<TTask>::Failed(PomoError::InvalidTaskIndex)
                },
                PomoCommand::Start => {
                    &&& old(self).state_set(final(self), PomoState::Pending)
                    &&& msg == PomoMessage::<TTask>::transition(
                        old(self).state,
                        PomoState::Pending,
                    )
                },
                PomoCommand::Pause => old(self).paused(final(self), msg),
                PomoCommand::Unpause => old(self).unpaused(final(self), msg),
                PomoCommand::TogglePause => old(self).toggled(final(self), msg),
                PomoCommand::Reset => {
                    &&& old(self).was_reset(final(self))
                    &&& msg == PomoMessage::<TTask>::Reset
                },
                PomoCommand::Update => old(self).polled(final(self), msg),
                PomoCommand::Clear => {
                    &&& old(self).was_cleared(final(self))
                    &&& msg == PomoMessage::<TTask>::Reset
                },
            },
    {
        match command {
            PomoCommand::AddTask(task) => {
                self.add_task(task);
                PomoMessage::Executed
            },
            PomoCommand::RemoveTask(index) => {
                match self.remove_task(index) {
                    Ok(_) => PomoMessage::Executed,
                    Err(error) => PomoMessage::Failed(error),
                }
            },
            PomoCommand::Start => self.start(),
            PomoCommand::Pause => self.pause(),
            PomoCommand::Unpause => self.unpause(),
            PomoCommand::TogglePause => self.toggle_pause(),
            PomoCommand::Reset => self.reset(),
            PomoCommand::Update => self.update(),
            PomoCommand::Clear => self.clear(),
        }
    }
}

impl<TTask, TTimer> Pomo<TTask, TTimer> for SimplePomo<TTask, TTimer> where
    TTask: Task,
    TTimer: Timer,
 {
    type PomoOut = PomoMessage<TTask>;

    /// Gets the machine ready: the next poll begins the first work phase.
    fn start(&mut self) -> (msg: PomoMessage<TTask>)
        ensures
            old(self).state_set(final(self), PomoState::Pending),
            msg == PomoMessage::<TTask>::transition(old(self).state, PomoState::Pending),
            old(self).wf() ==> final(self).wf(),
    {
        self.set_state(PomoState::Pending)
    }

    /// Puts the machine back to its beginning, whatever state it is in. The
    /// queue of tasks stays as it is.
    fn reset(&mut self) -> (msg: PomoMessage<TTask>)
        ensures
            old(self).was_reset(final(self)),
            final(self).state == PomoState::NotStarted,
            final(self).current_cycles == 0,
            msg == PomoMessage::<TTask>::Reset,
            old(self).wf() ==> final(self).wf(),
    {
        self.current_cycles = 0;
        self.state = PomoState::default();
        self.prev_state = PomoState::default();

        PomoMessage::Reset
    }

    /// Empties the queue of tasks and resets the machine.
    fn clear(&mut self) -> (msg: PomoMessage<TTask>)
        ensures
            old(self).was_cleared(final(self)),
            msg == PomoMessage::<TTask>::Reset,
            old(self).wf() ==> final(self).wf(),
    {
        self.tasks.clear();
        self.reset()
    }

    /// One poll. Whether the timer of the current state has reached its goal
    /// is for its clock to say; whatever it says, the machine does what
    /// `update_after` does with that answer, and a timer that was never
    /// started or is paused has not reached its goal.
    fn update(&mut self) -> (msg: PomoMessage<TTask>)
        ensures
            old(self).polled(final(self), msg),
            old(self).wf() ==> final(self).wf(),
    {
        let timer_done = match self.state {
            PomoState::Working => self.work_timer.is_completed(),
            PomoState::Break => self.break_timer.is_completed(),
            PomoState::LongBreak => self.long_break_timer.is_completed(),
            _ => false,
        };
        self.update_after(timer_done)
    }
}

impl<TTask, TTimer> PomoActions<TTask, TTimer> for SimplePomo<TTask, TTimer> where
    TTask: Task,
    TTimer: Timer,
 {
    type PomoActionOut = PomoMessage<TTask>;

    /// Starts all three timers anew and enters `state`, where `state` has a
    /// timer. To skip to any other state is no error; it changes nothing.
    fn skip_to(&mut self, state: PomoState) -> (msg: PomoMessage<TTask>)
        ensures
            old(self).skipped(final(self), state, msg),
            old(self).wf() ==> final(self).wf(),
    {
        match state {
            PomoState::Working | PomoState::Break | PomoState::LongBreak => {
                self.work_timer.reset();
                self.break_timer.reset();
                self.long_break_timer.reset();
                match state {
                    PomoState::Working => {
                        self.work_timer.start();
                    },
                    PomoState::Break => {
                        self.break_timer.start();
                    },
                    _ => {
                        self.long_break_timer.start();
                    },
                };
                self.set_state(state)
            },
            _ => PomoMessage::NoMessage,
        }
    }

    /// Enters `state` and remembers the state that was left. Nothing else
    /// changes: no timer is touched.
    fn set_state(&mut self, state: PomoState) -> (msg: PomoMessage<TTask>)
        ensures
            old(self).state_set(final(self), state),
            msg == PomoMessage::<TTask>::transition(old(self).state, state),
            old(self).wf() && (state == PomoState::Completed ==> old(self).current_cycles == old(self).total_cycles) && (state == PomoState::Paused ==> old(self).state.has_timer())
                ==> final(self).wf(),
    {
        self.prev_state = self.state;
        self.state = state;
        PomoMessage::Transition(Transition::new(self.prev_state, self.state))
    }

    fn toggle_pause(&mut self) -> (msg: PomoMessage<TTask>)
        ensures
            old(self).toggled(final(self), msg),
            old(self).wf() ==> final(self).wf(),
    {
        if !self.is_paused() {
            self.pause()
        } else {
            self.unpause()
        }
    }

    /// Pauses the timer of the current state and enters `Paused`. Where the
    /// machine is paused already, or in a state without a timer, nothing
    /// changes.
    fn pause(&mut self) -> (msg: PomoMessage<TTask>)
        ensures
            old(self).paused(final(self), msg),
            old(self).wf() ==> final(self).wf(),
    {
        match self.state {
            PomoState::Working => {
                self.work_timer.pause();
                self.set_state(PomoState::Paused)
            },
            PomoState::Break => {
                self.break_timer.pause();
                self.set_state(PomoState::Paused)
            },
            PomoState::LongBreak => {
                self.long_break_timer.pause();
                self.set_state(PomoState::Paused)
            },
            _ => PomoMessage::Transition(Transition::new(self.state, self.state)),
        }
    }

    /// Resumes the timer that was paused and goes back to its state. Where
    /// the machine is not paused, nothing changes.
    fn unpause(&mut self) -> (msg: PomoMessage<TTask>)
        ensures
            old(self).unpaused(final(self), msg),
            old(self).wf() ==> final(self).wf(),
    {
        if self.is_paused() {
            match self.prev_state {
                PomoState::Working => self.work_timer.resume(),
                PomoState::Break => self.break_timer.resume(),
                PomoState::LongBreak => self.long_break_timer.resume(),
                _ => (),
            }
            let back = self.prev_state;
            self.set_state(back)
        } else {
            PomoMessage::Transition(Transition::new(self.state, self.state))
        }
    }
}

impl<TTask, TTimer> PomoData<TTask, TTimer> for SimplePomo<TTask, TTimer> where
    TTask: Task,
    TTimer: Timer,
 {
    open spec fn current_state(&self) -> PomoState {
        self.state
    }

    /// The task that the next work phase retires: the first of the queue.
    fn task(&self) -> (task: Option<&TTask>)
        ensures
            match task {
                Some(first) => self.tasks@.len() > 0 && *first == self.tasks@[0],
                None => self.tasks@.len() == 0,
            },
    {
        if self.tasks.len() > 0 {
            Some(&self.tasks[0])
        } else {
            None
        }
    }

    fn tasks(&self) -> (tasks: &[TTask])
        ensures
            tasks@ == self.tasks@,
    {
        self.tasks.as_slice()
    }

    /// The timer of the current state, where it has one.
    fn timer(&self) -> (timer: Option<&TTimer>)
        ensures
            match self.state {
                PomoState::Working => timer == Some(&self.work_timer),
                PomoState::Break => timer == Some(&self.break_timer),
                PomoState::LongBreak => timer == Some(&self.long_break_timer),
                _ => timer is None,
            },
    {
        match self.state {
            PomoState::Working => Some(&self.work_timer),
            PomoState::Break => Some(&self.break_timer),
            PomoState::LongBreak => Some(&self.long_break_timer),
            _ => None,
        }
    }

    /// The tasks of the queue, to be changed in place. The queue keeps its
    /// length, and nothing else of the machine is touched.
    fn tasks_mut(&mut self) -> (tasks: &mut [TTask])
        ensures
            tasks@ == old(self).tasks@,
            final(tasks)@ == final(self).tasks@,
            old(self).same_but_tasks(final(self)),
    {
        self.tasks.as_mut_slice()
    }

    fn is_paused(&self) -> (paused: bool) {
        self.state() == PomoState::Paused
    }

    fn state(&self) -> (state: PomoState) {
        self.state
    }
}

} // verus!
