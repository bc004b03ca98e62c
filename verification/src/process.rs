//! Processes as plain data: what to run, and what a run left behind.

use vstd::prelude::*;

verus! {

/// A program to run, with its arguments in order.
#[derive(Debug, PartialEq, Eq)]
pub struct Invocation {
    pub program: String,
    pub args: Vec<String>,
}

/// The mathematical value of an [`Invocation`].
pub struct InvocationModel {
    pub program: Seq<char>,
    pub args: Seq<Seq<char>>,
}

impl View for Invocation {
    type V = InvocationModel;

    open spec fn view(&self) -> InvocationModel {
        InvocationModel { program: self.program@, args: self.args.deep_view() }
    }
}

/// What a process left behind: whether it reported success, and what it
/// printed on each stream.
#[derive(Debug, PartialEq, Eq)]
pub struct ProcessOutput {
    pub success: bool,
    pub stdout: String,
    pub stderr: String,
}

/// The mathematical value of a [`ProcessOutput`].
pub struct ProcessOutputModel {
    pub success: bool,
    pub stdout: Seq<char>,
    pub stderr: Seq<char>,
}

impl View for ProcessOutput {
    type V = ProcessOutputModel;

    open spec fn view(&self) -> ProcessOutputModel {
        ProcessOutputModel { success: self.success, stdout: self.stdout@, stderr: self.stderr@ }
    }
}

/// What running an [`Invocation`] came to.
#[derive(Debug, PartialEq, Eq)]
pub enum RunOutcome {
    /// The process ran to its end.
    Finished(ProcessOutput),
    /// The process could not be started; the text is the system's own.
    NotStarted(String),
}

/// The mathematical value of a [`RunOutcome`].
pub enum RunOutcomeModel {
    Finished(ProcessOutputModel),
    NotStarted(Seq<char>),
}

impl View for RunOutcome {
    type V = RunOutcomeModel;

    open spec fn view(&self) -> RunOutcomeModel {
        match self {
            RunOutcome::Finished(output) => RunOutcomeModel::Finished(output@),
            RunOutcome::NotStarted(reason) => RunOutcomeModel::NotStarted(reason@),
        }
    }
}

} // verus!
