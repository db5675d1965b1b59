//! What a handler of one request type offers the mediator.

use vstd::prelude::*;

use crate::message::{Command, Message, Query};

verus! {

/// Carries out commands of type `C`.
pub trait CommandHandler<C: Command> {
    /// Holds once `execute(command)` has carried out `command`. A handler
    /// whose effect lies outside what contracts describe keeps the default.
    open spec fn performs(&self, command: C) -> bool {
        true
    }

    fn execute(&self, command: C)
        ensures
            self.performs(command),
    ;
}

/// Answers queries of type `Q` with results of type `R`.
pub trait QueryHandler<Q: Query, R: Message> {
    /// Whether `result` is an answer this handler may give to `query`. A
    /// handler that promises nothing of its answers keeps the default.
    open spec fn answers(&self, query: Q, result: R) -> bool {
        true
    }

    fn execute(&self, query: Q) -> (r: R)
        ensures
            self.answers(query, r),
    ;
}

} // verus!
