//! What the scheduler asks its surroundings to do, and what it is told of
//! how that went.

use crate::config::{BackblazeConfig, BackblazeConfigView};
use crate::invocation::{Invocation, InvocationView};
use vstd::prelude::*;

verus! {

/// One effect on the world outside. The scheduler names it; whoever drives
/// the scheduler performs it and reports the outcome.
#[derive(Debug, Clone, PartialEq, Eq)]
pub enum Action {
    /// Create the directory, and its parents, unless it is there already.
    EnsureDirectory(String),
    /// Start the tool, wait for it to end and keep what it wrote to its
    /// error stream.
    Run(Invocation),
    /// Remove the file.
    RemoveFile(String),
    /// Open a session with the storage service under the bucket's
    /// application key, with the bucket selected.
    Login(BackblazeConfig),
    /// Store the file at `local_path` under `remote_key`, in the session
    /// that the last login opened.
    Upload { remote_key: String, local_path: String },
    /// Remove the directory and all that is in it.
    RemoveDirectory(String),
    /// Wait for this many seconds.
    Sleep(u64),
    /// End the process.
    Halt,
}

pub enum ActionView {
    EnsureDirectory(Seq<char>),
    Run(InvocationView),
    RemoveFile(Seq<char>),
    Login(BackblazeConfigView),
    Upload { remote_key: Seq<char>, local_path: Seq<char> },
    RemoveDirectory(Seq<char>),
    Sleep(u64),
    Halt,
}

impl View for Action {
    type V = ActionView;

    open spec fn view(&self) -> ActionView {
        match self {
            Action::EnsureDirectory(path) => ActionView::EnsureDirectory(path@),
            Action::Run(command) => ActionView::Run(command@),
            Action::RemoveFile(path) => ActionView::RemoveFile(path@),
            Action::Login(bucket) => ActionView::Login(bucket@),
            Action::Upload { remote_key, local_path } => ActionView::Upload {
                remote_key: remote_key@,
                local_path: local_path@,
            },
            Action::RemoveDirectory(path) => ActionView::RemoveDirectory(path@),
            Action::Sleep(seconds) => ActionView::Sleep(*seconds),
            Action::Halt => ActionView::Halt,
        }
    }
}

/// How an action went. A tool that cannot be started and one that ends in
/// failure are the same outcome; the text says which.
#[derive(Debug, Clone, PartialEq, Eq)]
pub enum Outcome {
    Completed,
    Failed(String),
}

pub enum OutcomeView {
    Completed,
    Failed(Seq<char>),
}

impl View for Outcome {
    type V = OutcomeView;

    open spec fn view(&self) -> OutcomeView {
        match self {
            Outcome::Completed => OutcomeView::Completed,
            Outcome::Failed(text) => OutcomeView::Failed(text@),
        }
    }
}

/// How the run of a tool ended, as the operating system tells it.
#[derive(Debug, Clone, PartialEq, Eq)]
pub enum Exit {
    /// The tool could not be started; the text says why.
    NotStarted(String),
    /// The tool ran to its end. `success` is whether its exit status was
    /// zero; `errors` is what it wrote to its error stream.
    Ended { success: bool, errors: String },
}

pub enum ExitView {
    NotStarted(Seq<char>),
    Ended { success: bool, errors: Seq<char> },
}

impl View for Exit {
    type V = ExitView;

    open spec fn view(&self) -> ExitView {
        match self {
            Exit::NotStarted(reason) => ExitView::NotStarted(reason@),
            Exit::Ended { success, errors } => ExitView::Ended {
                success: *success,
                errors: errors@,
            },
        }
    }
}

/// The outcome of a run that ended in `exit`: only an exit status of zero is
/// success. A failure carries the reason the tool did not start, or else
/// what the tool wrote to its error stream.
pub open spec fn run_outcome(exit: ExitView) -> OutcomeView {
    match exit {
        ExitView::NotStarted(reason) => OutcomeView::Failed(reason),
        ExitView::Ended { success, errors } => if success {
            OutcomeView::Completed
        } else {
            OutcomeView::Failed(errors)
        },
    }
}

impl Outcome {
    /// The outcome of a run that ended in `exit`.
    pub fn of_run(exit: Exit) -> (outcome: Outcome)
        ensures
            outcome@ == run_outcome(exit@),
    {
        match exit {
            Exit::NotStarted(reason) => Outcome::Failed(reason),
            Exit::Ended { success, errors } => if success {
                Outcome::Completed
            } else {
                Outcome::Failed(errors)
            },
        }
    }
}

} // verus!
