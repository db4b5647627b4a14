//! Tasks: a description and whether the work is done.

use vstd::prelude::*;

verus! {

/// A unit of work that can be marked as done.
pub trait Task: Clone {
    type Out;

    /// The text that describes the task.
    spec fn label(&self) -> Seq<char>;

    /// Whether the task is marked as done.
    spec fn completed(&self) -> bool;

    /// Marks the task as done. Its description stays.
    fn complete(&mut self) -> (out: Self::Out)
        ensures
            final(self).completed(),
            final(self).label() == old(self).label(),
    ;

    fn is_completed(&self) -> (completed: bool)
        ensures
            completed == self.completed(),
    ;

    /// The description, as an owned string.
    fn to_string(&self) -> (text: String)
        ensures
            text@ == self.label(),
    ;
}

/// The kinds of task there are.
#[derive(PartialEq)]
pub enum TaskKind {
    Simple(SimpleTask),
}

impl Clone for TaskKind {
    fn clone(&self) -> (copy: Self)
        ensures
            copy.label() == self.label(),
            copy.completed() == self.completed(),
    {
        match self {
            Self::Simple(task) => Self::Simple(task.clone()),
        }
    }
}

impl Task for TaskKind {
    type Out = ();

    open spec fn label(&self) -> Seq<char> {
        match self {
            Self::Simple(task) => task.label(),
        }
    }

    open spec fn completed(&self) -> bool {
        match self {
            Self::Simple(task) => task.completed(),
        }
    }

    fn complete(&mut self) -> (out: Self::Out) {
        match self {
            Self::Simple(task) => task.complete(),
        }
    }

    fn is_completed(&self) -> (completed: bool) {
        match self {
            Self::Simple(task) => task.is_completed(),
        }
    }

    fn to_string(&self) -> (text: String) {
        match self {
            Self::Simple(task) => task.to_string(),
        }
    }
}

/// A task that is nothing but its description.
#[derive(PartialEq, Eq, Debug)]
pub struct SimpleTask {
    completed: bool,
    description: String,
}

impl SimpleTask {
    /// A task with the given description, not yet done.
    pub fn new(description: &str) -> (task: Self)
        ensures
            task.label() == description@,
            !task.completed(),
    {
        Self { description: description.to_owned(), completed: false }
    }
}

impl Clone for SimpleTask {
    fn clone(&self) -> (copy: Self)
        ensures
            copy.label() == self.label(),
            copy.completed() == self.completed(),
    {
        Self { completed: self.completed, description: self.description.clone() }
    }
}

impl Task for SimpleTask {
    type Out = ();

    closed spec fn label(&self) -> Seq<char> {
        self.description@
    }

    closed spec fn completed(&self) -> bool {
        self.completed
    }

    fn complete(&mut self) -> (out: Self::Out) {
        self.completed = true;
    }

    fn is_completed(&self) -> (completed: bool) {
        self.completed
    }

    fn to_string(&self) -> (text: String) {
        self.description.clone()
    }
}

} // verus!
