//! What goes into a pomo machine and what comes out of it.

use crate::state::PomoState;
use crate::task::Task;
use vstd::prelude::*;
use vstd::string::StringExecFns;

verus! {

/// What a machine can refuse to do.
#[derive(Copy, Clone, Debug, Eq, PartialEq, Structural)]
pub enum PomoError {
    /// There is no task at the index that was given.
    InvalidTaskIndex,
    /// A session needs at least one cycle, and a long break comes after at
    /// least one cycle.
    InvalidCycles,
}

impl PomoError {
    pub open spec fn label(self) -> Seq<char> {
        match self {
            Self::InvalidTaskIndex => "Invalid task index"@,
            Self::InvalidCycles => "Invalid number of cycles"@,
        }
    }

    pub fn to_string(&self) -> (text: String)
        ensures
            text@ == self.label(),
    {
        match self {
            Self::InvalidTaskIndex => String::from_str("Invalid task index"),
            Self::InvalidCycles => String::from_str("Invalid number of cycles"),
        }
    }
}

/// One change of state, with the task that was retired by it, if any.
#[derive(PartialEq, Eq, Debug)]
pub struct Transition<TTask> where TTask: Task {
    pub from: PomoState,
    pub to: PomoState,
    pub completed: Option<TTask>,
}

impl<TTask> Transition<TTask> where TTask: Task {
    pub fn new(from: PomoState, to: PomoState) -> (transition: Self)
        ensures
            transition == (Transition::<TTask> { from, to, completed: None }),
    {
        Self { from, to, completed: None }
    }

    pub fn new_task(from: PomoState, to: PomoState, completed: TTask) -> (transition: Self)
        ensures
            transition == (Transition { from, to, completed: Some(completed) }),
    {
        Self { from, to, completed: Some(completed) }
    }

    /// The text of the task that was retired, `None` where there was none.
    pub open spec fn completed_label(&self) -> Seq<char> {
        match self.completed {
            Some(task) => task.label(),
            None => "None"@,
        }
    }

    /// The transition as it is shown.
    pub open spec fn label(&self) -> Seq<char> {
        "(from: "@ + self.from.label() + ", to: "@ + self.to.label() + ", completed: "@
            + self.completed_label() + ")"@
    }

    pub fn to_string(&self) -> (text: String)
        ensures
            text@ == self.label(),
    {
        let mut text = String::from_str("(from: ");
        text.append(self.from.name());
        text.append(", to: ");
        text.append(self.to.name());
        text.append(", completed: ");
        match &self.completed {
            Some(task) => {
                let task_text = task.to_string();
                text.append(task_text.as_str());
            },
            None => {
                text.append("None");
            },
        }
        text.append(")");
        text
    }
}

/// What a machine answers.
#[derive(PartialEq, Eq, Debug)]
pub enum PomoMessage<TTask> where TTask: Task {
    /// The state changed.
    Transition(Transition<TTask>),
    /// Nothing changed.
    NoMessage,
    /// A command on the list of tasks was carried out.
    Executed,
    /// The machine was put back to its beginning.
    Reset,
    /// A command was refused; nothing changed.
    Failed(PomoError),
}

impl<TTask> PomoMessage<TTask> where TTask: Task {
    /// The message of a change of state that retired no task.
    pub open spec fn transition(from: PomoState, to: PomoState) -> Self {
        PomoMessage::Transition(Transition { from, to, completed: None })
    }

    /// The message as it is shown.
    pub open spec fn label(&self) -> Seq<char> {
        match self {
            Self::Transition(t) => t.label(),
            Self::NoMessage => "NoMessage"@,
            Self::Reset => "Reset"@,
            Self::Executed => "Executed"@,
            Self::Failed(error) => error.label(),
        }
    }

    pub fn to_string(&self) -> (text: String)
        ensures
            text@ == self.label(),
    {
        match self {
            Self::Transition(t) => t.to_string(),
            Self::NoMessage => String::from_str("NoMessage"),
            Self::Reset => String::from_str("Reset"),
            Self::Executed => String::from_str("Executed"),
            Self::Failed(error) => error.to_string(),
        }
    }
}

/// What a machine can be told to do.
#[derive(Copy, Clone, Debug, Eq, PartialEq)]
pub enum PomoCommand<TTask> where TTask: Task {
    AddTask(TTask),
    RemoveTask(usize),
    Start,
    Reset,
    Pause,
    Unpause,
    TogglePause,
    Update,
    Clear,
}

} // verus!
