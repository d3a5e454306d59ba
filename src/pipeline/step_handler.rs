use vstd::prelude::*;

use crate::lua::ScriptError;
use crate::pipe_contents::{opt_pipe_view, PipeContents, PipeView};

verus! {

/// How a step completed.
#[derive(Debug)]
pub enum StepCompletion {
    /// Advance to the next action, with these pipe contents.
    Normal(Option<PipeContents>),
    /// Keep the index as the step left it, with these pipe contents.
    NoIncrement(Option<PipeContents>),
    /// Advance, with these pipe contents, reporting warnings.
    WithWarnings(Option<PipeContents>, Vec<String>),
    /// Stop the pipeline without error.
    WithExit,
}

/// Why a step failed. Every error ends the pipeline.
#[derive(Debug)]
pub enum StepError {
    /// The request could not be carried out (network, DNS, TLS, timeout).
    Http(String),
    /// The response body could not be read.
    IO(String),
    /// The action is not valid where it stands (for instance with an empty pipe).
    InvalidActionInContext,
    /// The action needs a script, but none was loaded.
    ScriptNotInstantiated,
    /// The script interpreter raised an error.
    ScriptException(ScriptError),
    /// A table, function, userdata, thread or error value cannot be made a string.
    RefuseToStringifyComplex,
    /// A nil value cannot be made a string.
    RefuseToStringifyNonExistent,
    /// A script value was asked for, but the pipe is empty.
    RequestedScriptValueWhereNoneExists,
    /// A jump targets an index past the end of the sequence.
    ActionOutOfRange,
    /// The request URL could not be resolved against the base URL.
    UrlParsing(url::ParseError),
    /// A validator's predicate did not hold.
    Validation(String),
    /// A `NoneOf` combinator saw one of its validators succeed.
    ValidationSucceededUnexpectedly,
}

pub type StepResult = Result<StepCompletion, StepError>;

/// The mathematical value of a step error: only a validation message is kept.
pub ghost enum ErrorView {
    Http,
    IO,
    InvalidActionInContext,
    ScriptNotInstantiated,
    ScriptException,
    RefuseToStringifyComplex,
    RefuseToStringifyNonExistent,
    RequestedScriptValueWhereNoneExists,
    ActionOutOfRange,
    UrlParsing,
    Validation(Seq<char>),
    ValidationSucceededUnexpectedly,
}

/// The mathematical value of a step result.
pub ghost enum StepView {
    Normal(Option<PipeView>),
    NoIncrement(Option<PipeView>),
    WithWarnings(Option<PipeView>, Seq<Seq<char>>),
    WithExit,
    Failed(ErrorView),
}

pub open spec fn strings_view(ws: Seq<String>) -> Seq<Seq<char>> {
    ws.map_values(|w: String| w@)
}

impl View for StepError {
    type V = ErrorView;

    open spec fn view(&self) -> ErrorView {
        match self {
            StepError::Http(_) => ErrorView::Http,
            StepError::IO(_) => ErrorView::IO,
            StepError::InvalidActionInContext => ErrorView::InvalidActionInContext,
            StepError::ScriptNotInstantiated => ErrorView::ScriptNotInstantiated,
            StepError::ScriptException(_) => ErrorView::ScriptException,
            StepError::RefuseToStringifyComplex => ErrorView::RefuseToStringifyComplex,
            StepError::RefuseToStringifyNonExistent => ErrorView::RefuseToStringifyNonExistent,
            StepError::RequestedScriptValueWhereNoneExists => ErrorView::RequestedScriptValueWhereNoneExists,
            StepError::ActionOutOfRange => ErrorView::ActionOutOfRange,
            StepError::UrlParsing(_) => ErrorView::UrlParsing,
            StepError::Validation(m) => ErrorView::Validation(m@),
            StepError::ValidationSucceededUnexpectedly => ErrorView::ValidationSucceededUnexpectedly,
        }
    }
}

impl View for StepCompletion {
    type V = StepView;

    open spec fn view(&self) -> StepView {
        match self {
            StepCompletion::Normal(d) => StepView::Normal(opt_pipe_view(*d)),
            StepCompletion::NoIncrement(d) => StepView::NoIncrement(opt_pipe_view(*d)),
            StepCompletion::WithWarnings(d, ws) => StepView::WithWarnings(opt_pipe_view(*d), strings_view(ws@)),
            StepCompletion::WithExit => StepView::WithExit,
        }
    }
}

/// The view of a step result: a completion's view, or the failure.
pub open spec fn step_view(r: StepResult) -> StepView {
    match r {
        Ok(c) => c@,
        Err(e) => StepView::Failed(e@),
    }
}

/// A step that completed, with or without warnings, but did not fail or exit.
pub open spec fn is_success(v: StepView) -> bool {
    match v {
        StepView::Normal(_) | StepView::NoIncrement(_) | StepView::WithWarnings(_, _) => true,
        _ => false,
    }
}

} // verus!
