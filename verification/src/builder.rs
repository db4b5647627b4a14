//! Putting a pomo machine together piece by piece.

use crate::action::PomoError;
use crate::pomo::SimplePomo;
use crate::state::PomoState;
use crate::task::Task;
use crate::time::{Timer, TimerView};
use vstd::prelude::*;

verus! {

/// The total number of cycles of a session, unless another is asked for.
pub const DEFAULT_TOTAL_CYCLES: usize = 8;

/// The number of cycles after which a long break comes, unless another is
/// asked for.
pub const DEFAULT_CYCLES_UNTIL_LONG_BREAK: usize = 4;

/// The parts of a machine that were chosen so far. What is not chosen gets
/// its default when the machine is built: no tasks, 25 minutes of work,
/// 5 minutes of break, 30 minutes of long break, a long break after every
/// fourth of eight cycles.
pub struct SimplePomoBuilder<TTask, TTimer> where TTask: Task, TTimer: Timer {
    pub tasks: Option<Vec<TTask>>,
    pub break_timer: Option<TTimer>,
    pub work_timer: Option<TTimer>,
    pub long_break_timer: Option<TTimer>,
    pub cycles_until_long_break: Option<usize>,
    pub total_cycles: Option<usize>,
}

/// Whether `timer` is the timer that was chosen or, where none was, a fresh
/// one with the default goal.
pub open spec fn chosen_timer<TTimer: Timer>(
    choice: Option<TTimer>,
    default_goal: nat,
    timer: TTimer,
) -> bool {
    match choice {
        Some(chosen) => timer == chosen,
        None => timer@ == TimerView::fresh(default_goal),
    }
}

/// The number that was chosen or, where none was, the default.
pub open spec fn chosen_cycles(choice: Option<usize>, default_cycles: usize) -> usize {
    match choice {
        Some(cycles) => cycles,
        None => default_cycles,
    }
}

impl<TTask, TTimer> SimplePomoBuilder<TTask, TTimer> where TTask: Task, TTimer: Timer {
    pub fn tasks(self, tasks: Vec<TTask>) -> (builder: Self)
        ensures
            builder == (SimplePomoBuilder { tasks: Some(tasks), ..self }),
    {
        Self { tasks: Some(tasks), ..self }
    }

    pub fn break_timer(self, timer: TTimer) -> (builder: Self)
        ensures
            builder == (SimplePomoBuilder { break_timer: Some(timer), ..self }),
    {
        Self { break_timer: Some(timer), ..self }
    }

    pub fn work_timer(self, timer: TTimer) -> (builder: Self)
        ensures
            builder == (SimplePomoBuilder { work_timer: Some(timer), ..self }),
    {
        Self { work_timer: Some(timer), ..self }
    }

    pub fn long_break_timer(self, timer: TTimer) -> (builder: Self)
        ensures
            builder == (SimplePomoBuilder { long_break_timer: Some(timer), ..self }),
    {
        Self { long_break_timer: Some(timer), ..self }
    }

    pub fn cycles_until_long_break(self, cycles: usize) -> (builder: Self)
        ensures
            builder == (SimplePomoBuilder { cycles_until_long_break: Some(cycles), ..self }),
    {
        Self { cycles_until_long_break: Some(cycles), ..self }
    }

    pub fn total_cycles(self, cycles: usize) -> (builder: Self)
        ensures
            builder == (SimplePomoBuilder { total_cycles: Some(cycles), ..self }),
    {
        Self { total_cycles: Some(cycles), ..self }
    }

    /// Builds the machine, not started and with no cycle counted. It is
    /// refused where the total of cycles or the cycles until a long break
    /// would be zero.
    pub fn build(self) -> (built: Result<SimplePomo<TTask, TTimer>, PomoError>)
        ensures
            built.is_ok() == (chosen_cycles(self.total_cycles, DEFAULT_TOTAL_CYCLES) > 0
                && chosen_cycles(self.cycles_until_long_break, DEFAULT_CYCLES_UNTIL_LONG_BREAK)
                > 0),
            built matches Err(error) ==> error == PomoError::InvalidCycles,
            built matches Ok(pomo) ==> {
                &&& pomo.wf()
                &&& pomo.tasks@ == match self.tasks {
                    Some(tasks) => tasks@,
                    None => Seq::<TTask>::empty(),
                }
                &&& chosen_timer(self.work_timer, 1_500_000_000_000, pomo.work_timer)
                &&& chosen_timer(self.break_timer, 300_000_000_000, pomo.break_timer)
                &&& chosen_timer(self.long_break_timer, 1_800_000_000_000, pomo.long_break_timer)
                &&& pomo.total_cycles == chosen_cycles(self.total_cycles, DEFAULT_TOTAL_CYCLES)
                &&& pomo.cycles_until_long_break == chosen_cycles(
                    self.cycles_until_long_break,
                    DEFAULT_CYCLES_UNTIL_LONG_BREAK,
                )
                &&& pomo.current_cycles == 0
                &&& pomo.state == PomoState::NotStarted
                &&& pomo.prev_state == PomoState::NotStarted
            },
    {
        let total_cycles = match self.total_cycles {
            Some(cycles) => cycles,
            None => DEFAULT_TOTAL_CYCLES,
        };
        let cycles_until_long_break = match self.cycles_until_long_break {
            Some(cycles) => cycles,
            None => DEFAULT_CYCLES_UNTIL_LONG_BREAK,
        };
        if total_cycles == 0 || cycles_until_long_break == 0 {
            return Err(PomoError::InvalidCycles);
        }
        let tasks = match self.tasks {
            Some(tasks) => tasks,
            None => Vec::new(),
        };
        let work_timer = match self.work_timer {
            Some(timer) => timer,
            None => TTimer::default_work_timer(),
        };
        let break_timer = match self.break_timer {
            Some(timer) => timer,
            None => TTimer::default_break_timer(),
        };
        let long_break_timer = match self.long_break_timer {
            Some(timer) => timer,
            None => TTimer::default_long_break_timer(),
        };
        Ok(
            SimplePomo {
                tasks,
                break_timer,
                work_timer,
                long_break_timer,
                current_cycles: 0,
                cycles_until_long_break,
                total_cycles,
                state: PomoState::NotStarted,
                prev_state: PomoState::NotStarted,
            },
        )
    }
}

impl<TTask, TTimer> Default for SimplePomoBuilder<TTask, TTimer> where
    TTask: Task,
    TTimer: Timer,
 {
    /// A builder with nothing chosen.
    fn default() -> (builder: Self)
        ensures
            builder == (SimplePomoBuilder::<TTask, TTimer> {
                tasks: None,
                break_timer: None,
                work_timer: None,
                long_break_timer: None,
                cycles_until_long_break: None,
                total_cycles: None,
            }),
    {
        Self {
            tasks: None,
            break_timer: None,
            work_timer: None,
            long_break_timer: None,
            cycles_until_long_break: None,
            total_cycles: None,
        }
    }
}

} // verus!
