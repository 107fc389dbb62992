use vstd::prelude::*;

verus! {

/// What the shell asks of the framework that may fail.
#[derive(Clone, Copy, Debug, PartialEq, Eq, Structural)]
pub enum Operation {
    /// Attaching the logging sink while the application sets up.
    RegisterLogging,
    /// Building the application and entering its event loop.
    RunEventLoop,
    /// Showing the window on behalf of the front-end.
    ShowWindow,
}

/// What follows an operation.
#[derive(Clone, Copy, Debug, PartialEq, Eq, Structural)]
pub enum Outcome {
    /// The operation succeeded and the shell carries on.
    Proceed,
    /// Setup returns the failure to the framework, which abandons the start.
    SetupFailed,
    /// The process ends with a fatal message.
    ProcessAborted,
    /// The task that served the command ends abruptly; the front-end gets no
    /// answer it could recover from.
    TaskAborted,
}

/// The outcome of `operation`, given whether the framework reported success.
///
/// No failure is retried or recovered from: each ends what it was part of.
pub open spec fn outcome_of(operation: Operation, succeeded: bool) -> Outcome {
    if succeeded {
        Outcome::Proceed
    } else {
        match operation {
            Operation::RegisterLogging => Outcome::SetupFailed,
            Operation::RunEventLoop => Outcome::ProcessAborted,
            Operation::ShowWindow => Outcome::TaskAborted,
        }
    }
}

/// The words an aborted process leaves behind.
pub open spec fn fatal_text() -> Seq<char> {
    "error while running tauri application"@
}

/// Decides what follows `operation`, given whether the framework reported
/// success.
pub fn outcome(operation: Operation, succeeded: bool) -> (result: Outcome)
    ensures
        result == outcome_of(operation, succeeded),
        result is Proceed <==> succeeded,
{
    if succeeded {
        Outcome::Proceed
    } else {
        match operation {
            Operation::RegisterLogging => Outcome::SetupFailed,
            Operation::RunEventLoop => Outcome::ProcessAborted,
            Operation::ShowWindow => Outcome::TaskAborted,
        }
    }
}

impl Outcome {
    /// The message to end the process with: only an aborted process has one.
    pub fn fatal_message(&self) -> (message: Option<&'static str>)
        ensures
            message is Some <==> *self is ProcessAborted,
            message matches Some(text) ==> text@ == fatal_text(),
    {
        match self {
            Outcome::ProcessAborted => Some("error while running tauri application"),
            _ => None,
        }
    }
}

} // verus!
