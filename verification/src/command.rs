//! Commands and the things that carry them out.

use vstd::prelude::*;

verus! {

/// Something that carries out commands and answers each with a response.
pub trait Actor<TCommand, TResponse> {
    fn execute(&mut self, command: TCommand) -> TResponse;
}

/// Something that can take a command back.
pub trait UndoActor<TCommand, TResponse> {
    fn undo(&mut self, command: TCommand) -> TResponse;
}

} // verus!
