//! What can go wrong, by kind, with the message the operator is shown.

use vstd::prelude::*;

verus! {

/// The kinds of failure. The kind decides whether a failure ends the
/// program or is shown and recovered from.
#[derive(Clone, Copy, Debug, PartialEq, Eq, Structural)]
pub enum ErrorKind {
    /// The configuration is missing or unusable, or names no such
    /// repository or preset.
    Configuration,
    /// The operator left a choice that had to be made.
    SelectionAbandoned,
    /// The engine binary could not be started.
    EngineInvocationFailed,
    /// The engine ran and reported failure.
    OperationFailed,
    /// The engine's output could not be read as the data it should be.
    MalformedEngineOutput,
    /// The mountpoint cannot be used, or a mount is in the way.
    MountState,
}

/// A failure: its kind and the message that describes it.
#[derive(Debug)]
pub struct ToolError {
    pub kind: ErrorKind,
    pub message: String,
}

/// What a [`ToolError`] holds.
pub struct ToolErrorView {
    pub kind: ErrorKind,
    pub message: Seq<char>,
}

impl View for ToolError {
    type V = ToolErrorView;

    open spec fn view(&self) -> ToolErrorView {
        ToolErrorView { kind: self.kind, message: self.message@ }
    }
}

impl DeepView for ToolError {
    type V = ToolErrorView;

    open spec fn deep_view(&self) -> ToolErrorView {
        self@
    }
}

impl Clone for ToolError {
    fn clone(&self) -> (r: Self)
        ensures
            r@ == self@,
    {
        ToolError { kind: self.kind, message: self.message.clone() }
    }
}

/// Whether a failure of this kind can be shown to the operator of an
/// interactive session, who then goes on from the nearest menu. The other
/// kinds end the session: without an engine, a configuration or readable
/// output there is nothing to go on with. The one exception is a backup:
/// whatever makes it fail is shown, and the session goes on.
pub open spec fn recoverable(kind: ErrorKind) -> bool {
    kind == ErrorKind::OperationFailed || kind == ErrorKind::MountState
}

impl ToolError {
    /// A failure of the given kind.
    pub fn new(kind: ErrorKind, message: String) -> (e: ToolError)
        ensures
            e@ == (ToolErrorView { kind, message: message@ }),
    {
        ToolError { kind, message }
    }

    /// Whether an interactive session goes on after this failure.
    pub fn is_recoverable(&self) -> (r: bool)
        ensures
            r == recoverable(self.kind),
    {
        match self.kind {
            ErrorKind::OperationFailed => true,
            ErrorKind::MountState => true,
            _ => false,
        }
    }

    /// The message, as the operator is shown it.
    pub fn message(&self) -> (r: String)
        ensures
            r@ == self.message@,
    {
        self.message.clone()
    }
}

} // verus!
