//! How the process ends: the exit code, and the line that goes to the log
//! when the application failed.

use vstd::prelude::*;
use vstd::string::StringExecFns;
use crate::bootstrap::{Bootstrap, Progress, StepOutcome};
use crate::context::{LoopEvent, LoopStep, XApp};

verus! {

/// What a line about a failed bootstrap starts with.
pub open spec fn init_prefix() -> Seq<char> {
    "Error on init XApp: "@
}

/// What a line about a failed frame loop starts with.
pub open spec fn run_prefix() -> Seq<char> {
    "Error on run XApp: "@
}

/// How the application ended.
#[derive(Debug, PartialEq, Eq)]
pub enum Outcome {
    /// The user quit.
    Finished,
    /// The bootstrap failed, with this message.
    InitFailed(String),
    /// The frame loop failed, with this message.
    RunFailed(String),
}

impl Outcome {
    /// The outcome of an application whose frame loop ended with `result`.
    pub open spec fn of_run(result: Result<(), String>) -> Outcome {
        match result {
            Ok(()) => Outcome::Finished,
            Err(message) => Outcome::RunFailed(message),
        }
    }

    /// Tells the outcome of an application from how its frame loop ended.
    pub fn from_run(result: Result<(), String>) -> (outcome: Outcome)
        ensures
            outcome == Outcome::of_run(result),
    {
        match result {
            Ok(()) => Outcome::Finished,
            Err(message) => Outcome::RunFailed(message),
        }
    }

    /// The exit code of an outcome: zero after a quit, one where the
    /// application failed to start, two where it failed while running.
    pub open spec fn code(self) -> i32 {
        match self {
            Outcome::Finished => 0,
            Outcome::InitFailed(_) => 1,
            Outcome::RunFailed(_) => 2,
        }
    }

    /// The code that the process exits with.
    pub fn exit_code(&self) -> (code: i32)
        ensures
            code == self.code(),
    {
        match self {
            Outcome::Finished => 0,
            Outcome::InitFailed(_) => 1,
            Outcome::RunFailed(_) => 2,
        }
    }

    /// The line that a failure leaves in the log: the failure's message
    /// behind a prefix that tells where it struck. A quit leaves none.
    pub open spec fn log_text(self) -> Option<Seq<char>> {
        match self {
            Outcome::Finished => None,
            Outcome::InitFailed(message) => Some(init_prefix() + message@),
            Outcome::RunFailed(message) => Some(run_prefix() + message@),
        }
    }

    /// Writes the line for the log, where there is one to write.
    pub fn log_line(&self) -> (line: Option<String>)
        ensures
            line is Some <==> self.log_text() is Some,
            line matches Some(text) ==> self.log_text() == Some(text@),
    {
        match self {
            Outcome::Finished => None,
            Outcome::InitFailed(message) => Some(
                String::from_str("Error on init XApp: ").concat(message.as_str()),
            ),
            Outcome::RunFailed(message) => Some(
                String::from_str("Error on run XApp: ").concat(message.as_str()),
            ),
        }
    }
}

/// A bootstrap that fails, at whichever step, yields an error, and the
/// process that ends on that error exits with code one.
pub proof fn lemma_failed_bootstrap_exits_with_one(
    boot: Bootstrap,
    outcome: StepOutcome,
    progress: Result<Progress, String>,
)
    requires
        boot.failure(outcome) is Some,
        boot.yields(outcome, progress),
    ensures
        progress matches Err(message) && Outcome::InitFailed(message).code() == 1,
{
}

/// A step that reports a failure fails the bootstrap, whichever step it
/// is, and with the message that the step reported.
pub proof fn lemma_failed_step_fails_bootstrap(boot: Bootstrap, message: String)
    ensures
        boot.failure(StepOutcome::Failed(message)) == Some(message@),
{
}

/// A frame that fails, like anything else that fails once the loop is
/// reached, ends the loop with the failure's message, and the process that
/// ends so exits with code two.
pub proof fn lemma_failed_frame_exits_with_two(app: XApp, message: String)
    ensures
        app.step(LoopEvent::Failed(message)) == LoopStep::Exit(Err(message)),
        Outcome::of_run(Err(message)) == Outcome::RunFailed(message),
        Outcome::RunFailed(message).code() == 2,
{
}

/// A loop that ends in order makes the process exit with code zero, and a
/// loop that ends on an error makes it exit with code two.
pub proof fn lemma_loop_exit_code(result: Result<(), String>)
    ensures
        result is Ok ==> Outcome::of_run(result).code() == 0,
        result is Err ==> Outcome::of_run(result).code() == 2,
{
}

} // verus!
