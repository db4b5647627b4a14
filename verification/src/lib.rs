//! A pomodoro timer: timed phases of work and breaks, and a queue of tasks
//! of which one is retired with every phase of work.
//!
//! The machine is polled. It reads its timers, decides what comes next and
//! answers with a message; it never sleeps and never prints.

pub mod action;
pub mod builder;
pub mod clock;
pub mod command;
pub mod parser;
pub mod pomo;
pub mod state;
pub mod task;
pub mod time;

pub use builder::SimplePomoBuilder;
pub use action::{PomoCommand, PomoError, PomoMessage, Transition};
pub use command::{Actor, UndoActor};
pub use parser::TimeParser;
pub use pomo::{Pomo, PomoActions, PomoData, SimplePomo};
pub use state::PomoState;
pub use task::{SimpleTask, Task, TaskKind};
pub use time::{InstantTimer, Timer, TimerView};
