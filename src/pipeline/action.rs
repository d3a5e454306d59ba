use vstd::prelude::*;

use crate::combinator::Action as CombinatorAction;
use crate::lua::{LuaForPipeline, ScriptError, ScriptValue, ValueView};
use crate::pipe_contents::{PipeContents, PipeView};
use crate::pipeline::step_handler::{ErrorView, StepError};
use crate::text::{signed_decimal, signed_decimal_string};
use crate::validator::opt_ref_view;
use crate::http::Action as HttpAction;
use crate::validator::Action as ValidatorAction;

verus! {

/// A map from names (of headers or query parameters) to lazily realised values.
pub type ConfigActionMap = Vec<(String, Reference)>;

/// Control-flow actions, handled by the pipeline itself.
#[derive(Clone, Debug, PartialEq, Eq)]
pub enum ControlFlow {
    /// Jump to `index`; when `max_times` is given, at most that many times.
    GoTo { index: usize, max_times: Option<usize> },
}

/// A lazy value, realised against the current pipe contents.
#[derive(Clone, Debug, PartialEq, Eq)]
pub enum Reference {
    /// A literal string.
    Value(String),
    /// The script value the pipe refers to.
    ScriptValue,
    /// The element at a (1-based) position of the script table the pipe refers to.
    ScriptTableIndex(usize),
    /// The field of the script table the pipe refers to.
    ScriptTableKey(String),
}

/// The string form of a script value: scalars in their natural form; nil and complex values
/// are refused, and so is a string that is not valid UTF-8.
pub open spec fn stringified(v: ValueView) -> Result<Seq<char>, ErrorView> {
    match v {
        ValueView::Nil => Err(ErrorView::RefuseToStringifyNonExistent),
        ValueView::Boolean(b) => Ok(if b { "true"@ } else { "false"@ }),
        ValueView::Integer(i) => Ok(signed_decimal(i as int)),
        ValueView::Number(t) => Ok(t),
        ValueView::Str(s) => Ok(s),
        ValueView::InvalidUtf8Str => Err(ErrorView::ScriptException),
        ValueView::Table => Err(ErrorView::RefuseToStringifyComplex),
        ValueView::Complex => Err(ErrorView::RefuseToStringifyComplex),
    }
}

pub open spec fn string_result_view(r: Result<String, StepError>) -> Result<Seq<char>, ErrorView> {
    match r {
        Ok(s) => Ok(s@),
        Err(e) => Err(e@),
    }
}

/// Makes a script value a string.
pub fn stringify_script_value(v: &ScriptValue) -> (r: Result<String, StepError>)
    ensures
        string_result_view(r) == stringified(v@),
{
    match v {
        ScriptValue::Nil => Err(StepError::RefuseToStringifyNonExistent),
        ScriptValue::Boolean(b) => Ok(if *b { String::from_str("true") } else { String::from_str("false") }),
        ScriptValue::Integer(i) => Ok(signed_decimal_string(*i)),
        ScriptValue::Number(t) => Ok(t.clone()),
        ScriptValue::Str(s) => Ok(s.clone()),
        ScriptValue::InvalidUtf8Str => Err(StepError::ScriptException(ScriptError::Runtime(String::from_str("string is not valid UTF-8")))),
        ScriptValue::Table | ScriptValue::Complex => Err(StepError::RefuseToStringifyComplex),
    }
}

/// The possible results of realising a reference: a literal passes through; a script
/// reference needs a script and a script value in the pipe, and then is the string form of
/// what was read there, unless reading raised.
pub open spec fn reference_outcome(rf: Reference, has_script: bool, pipe: Option<PipeView>, r: Result<Seq<char>, ErrorView>) -> bool {
    match rf {
        Reference::Value(s) => r == Ok::<Seq<char>, ErrorView>(s@),
        _ => {
            if !has_script {
                r == Err::<Seq<char>, ErrorView>(ErrorView::ScriptNotInstantiated)
            } else {
                match pipe {
                    None => r == Err::<Seq<char>, ErrorView>(ErrorView::RequestedScriptValueWhereNoneExists),
                    Some(PipeView::HttpResponse { .. }) => r == Err::<Seq<char>, ErrorView>(ErrorView::InvalidActionInContext),
                    Some(PipeView::ScriptRef(_)) =>
                        r == Err::<Seq<char>, ErrorView>(ErrorView::ScriptException)
                        || exists|v: ValueView| r == #[trigger] stringified(v),
                }
            }
        },
    }
}

fn read_error(e: ScriptError) -> (r: StepError)
    ensures
        r@ == ErrorView::ScriptException,
{
    StepError::ScriptException(e)
}

impl Reference {
    /// Realises this reference against the current pipe contents.
    pub fn try_into_string_given_pipe_data(&self, lua: Option<&LuaForPipeline>, pipe: Option<&PipeContents>) -> (r: Result<String, StepError>)
        ensures
            reference_outcome(*self, lua is Some, opt_ref_view(pipe), string_result_view(r)),
    {
        let l = match (self, lua) {
            (Reference::Value(s), _) => { return Ok(s.clone()); },
            (_, None) => { return Err(StepError::ScriptNotInstantiated); },
            (_, Some(l)) => l,
        };
        let key = match pipe {
            None => { return Err(StepError::RequestedScriptValueWhereNoneExists); },
            Some(PipeContents::HttpResponse { .. }) => { return Err(StepError::InvalidActionInContext); },
            Some(PipeContents::ScriptRef(k)) => k,
        };
        let read = match self {
            Reference::ScriptTableIndex(i) => l.field_by_index(&**key, *i as i64),
            Reference::ScriptTableKey(name) => l.field_by_name(&**key, name.as_str()),
            _ => l.value_at(&**key),
        };
        match read {
            Ok(v) => {
                let r = stringify_script_value(&v);
                assert(string_result_view(r) == stringified(v@));
                r
            },
            Err(e) => Err(read_error(e)),
        }
    }
}

/// One instruction of a persona's sequence.
#[derive(Clone, Debug, PartialEq, Eq)]
pub enum PipelineAction {
    Combinator(CombinatorAction),
    ControlFlow(ControlFlow),
    Http(HttpAction),
    ScriptFunction(String),
    Reference(Reference),
    Validator(ValidatorAction),
}

} // verus!
