//! The debug sink: a pluggable recipient of trace messages.

use vstd::prelude::*;

verus! {

/// How important a trace message is.
#[derive(Clone, Copy, Debug, PartialEq, Eq, Structural)]
pub enum DebugKind {
    Info,
    Warn,
    Error,
}

/// A recipient of trace messages. What a sink does with a message is its
/// own affair, and it says so itself, in `heard`; the emulator promises
/// only which message it hands over, and of which kind. A sink cannot reach
/// the machine state.
pub trait Debugger: Default {
    /// Whether the sink can be in this state after it was handed `message`
    /// of the kind `kind` in the state `before`. A sink that says nothing
    /// else of itself lets this hold of every state, as one does that
    /// keeps nothing of a message, or whose state does not depend on
    /// messages alone.
    open spec fn heard(&self, before: &Self, message: Seq<char>, kind: DebugKind) -> bool {
        true
    }

    /// Takes a message.
    fn debug(&mut self, message: &str, kind: DebugKind)
        ensures
            final(self).heard(old(self), message@, kind),
    ;
}

/// The sink that drops every message.
#[derive(Clone, Copy, Debug)]
pub struct NoneDebugger;

impl Default for NoneDebugger {
    fn default() -> (sink: NoneDebugger) {
        NoneDebugger
    }
}

impl Debugger for NoneDebugger {
    fn debug(&mut self, message: &str, kind: DebugKind) {
    }
}

} // verus!
