//! What a line source hands back, and what the process environment holds.

use vstd::prelude::*;
use vstd::string::*;

verus! {

/// Why a read from the line source ended without a line.
#[derive(Debug, PartialEq, Eq)]
pub enum ReadFailure {
    /// The user interrupted the read.
    Interrupted,
    /// The line source has no more input.
    EndOfInput,
    /// The read failed; the text says why.
    Error(String),
}

/// The mathematical content of a [`ReadFailure`].
pub enum FailureModel {
    Interrupted,
    EndOfInput,
    Error(Seq<char>),
}

impl View for ReadFailure {
    type V = FailureModel;

    open spec fn view(&self) -> FailureModel {
        match self {
            ReadFailure::Interrupted => FailureModel::Interrupted,
            ReadFailure::EndOfInput => FailureModel::EndOfInput,
            ReadFailure::Error(cause) => FailureModel::Error(cause@),
        }
    }
}

impl ReadFailure {
    /// What to print before giving up: the cause of a failed read, `EOF` for
    /// the end of the input, and nothing for an interruption.
    pub fn diagnostic(&self) -> (text: Option<String>)
        ensures
            text_of(text) == failure_text(self@),
    {
        match self {
            ReadFailure::Error(cause) => Some(cause.clone()),
            ReadFailure::EndOfInput => Some(String::from_str("EOF")),
            ReadFailure::Interrupted => None,
        }
    }
}

/// The diagnostic of a failed read: an interruption has none.
pub open spec fn failure_text(failure: FailureModel) -> Option<Seq<char>> {
    match failure {
        FailureModel::Error(cause) => Some(cause),
        FailureModel::EndOfInput => Some("EOF"@),
        FailureModel::Interrupted => None,
    }
}

/// The view of an optional text.
pub open spec fn text_of(text: Option<String>) -> Option<Seq<char>> {
    match text {
        Some(t) => Some(t@),
        None => None,
    }
}

/// What to do about a failed read.
#[derive(Clone, Copy, Debug, PartialEq, Eq, Structural)]
pub enum FailurePolicy {
    /// End the process.
    Exit,
    /// Hand the failure to the caller.
    Propagate,
}

/// What a policy makes of one failed read.
#[derive(Debug, PartialEq, Eq)]
pub enum FailureAction {
    /// Print the diagnostic, where there is one, and end the process with
    /// this status, which is never zero.
    Exit { diagnostic: Option<String>, status: u8 },
    /// Return the failure to the caller.
    Return(ReadFailure),
}

/// The status with which the process ends after a failed read.
pub const EXIT_STATUS: u8 = 1;

/// Decides what becomes of a failed read under `policy`. Under `Exit` the
/// process ends with a status other than zero, after the diagnostic of the
/// failure, which an interruption does not have; under `Propagate` the
/// failure goes back to the caller untouched.
pub fn on_failure(policy: FailurePolicy, failure: ReadFailure) -> (action: FailureAction)
    ensures
        match policy {
            FailurePolicy::Propagate => action == FailureAction::Return(failure),
            FailurePolicy::Exit => action matches FailureAction::Exit { diagnostic, status }
                && status == EXIT_STATUS && status != 0 && text_of(diagnostic) == failure_text(
                failure@,
            ),
        },
{
    match policy {
        FailurePolicy::Propagate => FailureAction::Return(failure),
        FailurePolicy::Exit => FailureAction::Exit {
            diagnostic: failure.diagnostic(),
            status: EXIT_STATUS,
        },
    }
}

/// One answer of the line source to a request for a line.
#[derive(Debug, PartialEq, Eq)]
pub enum LineResult {
    /// The text the user entered, as typed.
    Line(String),
    /// No line: the read failed.
    Failed(ReadFailure),
}

/// The mathematical content of a [`LineResult`].
pub enum LineModel {
    Line(Seq<char>),
    Failed(FailureModel),
}

impl View for LineResult {
    type V = LineModel;

    open spec fn view(&self) -> LineModel {
        match self {
            LineResult::Line(text) => LineModel::Line(text@),
            LineResult::Failed(failure) => LineModel::Failed(failure@),
        }
    }
}

/// The part of the process environment that a coercion may consult.
#[derive(Debug, PartialEq, Eq)]
pub struct Environment {
    /// The value of `HOME`, where the variable is set.
    pub home: Option<String>,
}

/// The mathematical content of an [`Environment`].
pub struct EnvironmentModel {
    pub home: Option<Seq<char>>,
}

impl View for Environment {
    type V = EnvironmentModel;

    open spec fn view(&self) -> EnvironmentModel {
        EnvironmentModel {
            home: match self.home {
                Some(h) => Some(h@),
                None => None,
            },
        }
    }
}

impl Environment {
    /// A copy of the environment.
    pub fn duplicate(&self) -> (copy: Environment)
        ensures
            copy@ == self@,
    {
        match &self.home {
            Some(dir) => Environment { home: Some(dir.clone()) },
            None => Environment { home: None },
        }
    }
}

/// The views of a script of answers, in order.
pub open spec fn script_view(lines: Seq<LineResult>) -> Seq<LineModel> {
    Seq::new(lines.len(), |i: int| lines[i]@)
}

/// The views of a list of texts, in order.
pub open spec fn texts(list: Seq<String>) -> Seq<Seq<char>> {
    Seq::new(list.len(), |i: int| list[i]@)
}

} // verus!
