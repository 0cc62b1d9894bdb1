//! Resolution proper: the stub for platforms without the facility, the
//! reading of the operating system's answer, and the choice between the two.

use vstd::prelude::*;
use crate::failure::Failure;
use crate::failure::FailureView;
use crate::failure::UNSUPPORTED_PLATFORM_MESSAGE;

verus! {

/// The platform that a build targets, as far as path expansion cares.
#[derive(Debug, Clone, Copy, PartialEq, Eq)]
pub enum Platform {
    /// Windows, which can expand short paths.
    Windows,
    /// Any other platform.
    Other,
}

/// What has to happen next for a path that was handed in.
#[derive(Debug, PartialEq, Eq)]
pub enum Dispatch {
    /// The operating system must be asked to expand this path.
    AskSystem(String),
    /// The outcome is already known.
    Answered(Result<String, Failure>),
}

/// The mathematical value of a [`Dispatch`].
pub enum DispatchView {
    AskSystem(Seq<char>),
    Answered(Result<Seq<char>, FailureView>),
}

/// The mathematical value of an outcome: the characters of the resolved path,
/// or the value of the failure.
pub open spec fn outcome_view(outcome: Result<String, Failure>) -> Result<Seq<char>, FailureView> {
    match outcome {
        Ok(path) => Ok(path@),
        Err(failure) => Err(failure@),
    }
}

/// The mathematical value of what the operating system answered: the
/// characters of the expanded path, or those of its diagnostic.
pub open spec fn answer_view(answer: Result<String, String>) -> Result<Seq<char>, Seq<char>> {
    match answer {
        Ok(path) => Ok(path@),
        Err(diagnostic) => Err(diagnostic@),
    }
}

impl View for Dispatch {
    type V = DispatchView;

    open spec fn view(&self) -> DispatchView {
        match self {
            Dispatch::AskSystem(path) => DispatchView::AskSystem(path@),
            Dispatch::Answered(outcome) => DispatchView::Answered(outcome_view(*outcome)),
        }
    }
}

/// The outcome of resolving `path` where the facility is missing. The path
/// plays no part in it.
pub open spec fn unsupported_outcome(path: Seq<char>) -> Result<Seq<char>, FailureView> {
    Err(FailureView::UnsupportedPlatform)
}

/// The outcome that follows from the operating system's answer: its path
/// verbatim, or a failure that carries its diagnostic verbatim.
pub open spec fn outcome_of_answer(answer: Result<Seq<char>, Seq<char>>) -> Result<
    Seq<char>,
    FailureView,
> {
    match answer {
        Ok(path) => Ok(path),
        Err(diagnostic) => Err(FailureView::OperatingSystemError(diagnostic)),
    }
}

/// What is to be done with `path` on `platform`: on Windows the operating
/// system is asked about the very same path, elsewhere the outcome is that of
/// the stub.
pub open spec fn dispatch_of(platform: Platform, path: Seq<char>) -> DispatchView {
    match platform {
        Platform::Windows => DispatchView::AskSystem(path),
        Platform::Other => DispatchView::Answered(unsupported_outcome(path)),
    }
}

/// Resolves a path on a platform without the long-path facility: always the
/// unsupported-platform failure, whatever the path holds.
pub fn resolve_unsupported(path: &str) -> (outcome: Result<String, Failure>)
    ensures
        outcome_view(outcome) == unsupported_outcome(path@),
        outcome is Err,
        outcome->Err_0@.message() == UNSUPPORTED_PLATFORM_MESSAGE@,
{
    Err(Failure::UnsupportedPlatform)
}

/// Turns the operating system's answer into the outcome of the resolution.
/// A path is passed on untouched; a diagnostic becomes the message of an
/// operating-system failure, untouched as well.
pub fn resolve_from_answer(answer: Result<String, String>) -> (outcome: Result<String, Failure>)
    ensures
        outcome_view(outcome) == outcome_of_answer(answer_view(answer)),
        answer is Err ==> outcome is Err && outcome->Err_0@.message() == answer->Err_0@,
{
    match answer {
        Ok(path) => Ok(path),
        Err(diagnostic) => Err(Failure::OperatingSystemError(diagnostic)),
    }
}

/// Decides what happens to `path` on `platform`. No validation takes place:
/// on Windows any string goes to the operating system as it is.
pub fn dispatch(platform: Platform, path: String) -> (next: Dispatch)
    ensures
        next@ == dispatch_of(platform, path@),
{
    match platform {
        Platform::Windows => Dispatch::AskSystem(path),
        Platform::Other => Dispatch::Answered(resolve_unsupported(path.as_str())),
    }
}

/// The stub's outcome does not depend on its input: any two paths give the
/// same failure, with the same message.
pub proof fn lemma_unsupported_ignores_path(first: Seq<char>, second: Seq<char>)
    ensures
        unsupported_outcome(first) == unsupported_outcome(second),
        dispatch_of(Platform::Other, first) == dispatch_of(Platform::Other, second),
        unsupported_outcome(first)->Err_0.message() == UNSUPPORTED_PLATFORM_MESSAGE@,
{
}

/// The two kinds of failure never mix: whatever the operating system
/// answered, the outcome is not the one of an unsupported platform, and a
/// failure that follows from a diagnostic carries exactly that diagnostic.
pub proof fn lemma_answer_is_never_unsupported(
    answer: Result<Seq<char>, Seq<char>>,
    path: Seq<char>,
)
    ensures
        outcome_of_answer(answer) != unsupported_outcome(path),
        outcome_of_answer(answer) is Err <==> answer is Err,
        answer is Err ==> outcome_of_answer(answer)->Err_0.message() == answer->Err_0,
{
}

} // verus!
