use vstd::prelude::*;

use crate::lua::validation_result::{view_wf, ValidationResult, ValidationView};
use crate::lua::LuaForPipeline;
use crate::pipe_contents::{header_pairs_view, PipeContents, PipeView};
use crate::pipeline::step_handler::{is_success, step_view, strings_view, ErrorView, StepCompletion, StepError, StepResult, StepView};
use crate::text::{concat3, decimal, decimal_string};

verus! {

/// Checks on the current pipe contents. An `Assert` fails the step when its predicate is
/// false; its `WarnUnless` counterpart turns that failure into a warning.
#[derive(Clone, Debug, PartialEq, Eq)]
pub enum Action {
    AssertHeaderEquals(String, String),
    AssertHeaderExists(String),
    AssertStatusCode(u16),
    AssertStatusCodeInRange(u16, u16),
    WarnUnlessHeaderEquals(String, String),
    WarnUnlessHeaderExists(String),
    WarnUnlessStatusCode(u16),
    WarnUnlessStatusCodeInRange(u16, u16),
    ScriptFunction(String),
}

/// What `str::trim` returns for a string.
pub uninterp spec fn trimmed(s: Seq<char>) -> Seq<char>;

/// What `str::to_lowercase` returns for a string.
pub uninterp spec fn lowercased(s: Seq<char>) -> Seq<char>;

/// Relies on `str::trim`: the string without leading and trailing whitespace, which depends
/// on its characters alone.
#[verifier::external_body]
fn trim(s: &str) -> (r: &str)
    ensures
        r@ == trimmed(s@),
{
    s.trim()
}

/// Relies on `str::to_lowercase`: the lowercase mapping of each character, which depends on
/// the characters alone.
#[verifier::external_body]
fn lowercase(s: &str) -> (r: String)
    ensures
        r@ == lowercased(s@),
{
    s.to_lowercase()
}

/// A header name as it is compared: trimmed, then lowercased.
pub open spec fn normalized(name: Seq<char>) -> Seq<char> {
    lowercased(trimmed(name))
}

/// Normalises a header name for comparison: trimmed, then lowercased.
pub fn normalize_header_name(name: &str) -> (r: String)
    ensures
        r@ == normalized(name@),
{
    lowercase(trim(name))
}

/// Header `i` has the (normalised) name `name`.
pub open spec fn name_matches(hs: Seq<(Seq<char>, Seq<char>)>, i: int, name: Seq<char>) -> bool {
    normalized(hs[i].0) == normalized(name)
}

/// Some header has the (normalised) name `name`.
pub open spec fn has_header(hs: Seq<(Seq<char>, Seq<char>)>, name: Seq<char>) -> bool {
    exists|i: int| 0 <= i < hs.len() && #[trigger] name_matches(hs, i, name)
}

/// Header `i` is the first one named `name`.
pub open spec fn first_match(hs: Seq<(Seq<char>, Seq<char>)>, name: Seq<char>, i: int) -> bool {
    &&& 0 <= i < hs.len()
    &&& name_matches(hs, i, name)
    &&& forall|j: int| 0 <= j < i ==> !#[trigger] name_matches(hs, j, name)
}

/// Some header named `name` has exactly the value `v`.
pub open spec fn header_value_is(hs: Seq<(Seq<char>, Seq<char>)>, name: Seq<char>, v: Seq<char>) -> bool {
    exists|i: int| 0 <= i < hs.len() && #[trigger] name_matches(hs, i, name) && hs[i].1 == v
}

pub open spec fn status_message(c: u16) -> Seq<char> {
    "status code not equal to "@ + decimal(c as nat)
}

pub open spec fn range_message(lo: u16, hi: u16) -> Seq<char> {
    "status code not in range ["@ + decimal(lo as nat) + ", "@ + decimal(hi as nat) + "]"@
}

pub open spec fn header_message(h: Seq<char>) -> Seq<char> {
    "response headers did not include \""@ + h + "\""@
}

/// The predicate a non-script validator checks on a response's status and headers.
pub open spec fn predicate_holds(v: Action, status: u16, hs: Seq<(Seq<char>, Seq<char>)>) -> bool {
    match v {
        Action::AssertHeaderEquals(h, e) => header_value_is(hs, h@, e@),
        Action::WarnUnlessHeaderEquals(h, e) => header_value_is(hs, h@, e@),
        Action::AssertHeaderExists(h) => has_header(hs, h@),
        Action::WarnUnlessHeaderExists(h) => has_header(hs, h@),
        Action::AssertStatusCode(c) => status == c,
        Action::WarnUnlessStatusCode(c) => status == c,
        Action::AssertStatusCodeInRange(lo, hi) => lo <= status <= hi,
        Action::WarnUnlessStatusCodeInRange(lo, hi) => lo <= status <= hi,
        Action::ScriptFunction(_) => false,
    }
}

/// The message a non-script validator fails (or warns) with.
pub open spec fn failure_message(v: Action) -> Seq<char> {
    match v {
        Action::AssertHeaderEquals(h, _) => header_message(h@),
        Action::WarnUnlessHeaderEquals(h, _) => header_message(h@),
        Action::AssertHeaderExists(h) => header_message(h@),
        Action::WarnUnlessHeaderExists(h) => header_message(h@),
        Action::AssertStatusCode(c) => status_message(c),
        Action::WarnUnlessStatusCode(c) => status_message(c),
        Action::AssertStatusCodeInRange(lo, hi) => range_message(lo, hi),
        Action::WarnUnlessStatusCodeInRange(lo, hi) => range_message(lo, hi),
        Action::ScriptFunction(_) => Seq::empty(),
    }
}

pub open spec fn is_warning(v: Action) -> bool {
    match v {
        Action::WarnUnlessHeaderEquals(..) | Action::WarnUnlessHeaderExists(..)
        | Action::WarnUnlessStatusCode(..) | Action::WarnUnlessStatusCodeInRange(..) => true,
        _ => false,
    }
}

pub open spec fn is_script(v: Action) -> bool {
    v is ScriptFunction
}

/// The outcome of a non-script validator on a pipe: it needs a response; when its
/// predicate holds the response passes on, otherwise it fails, or a `WarnUnless` warns and
/// passes the response on.
pub open spec fn check_view(v: Action, pipe: Option<PipeView>) -> StepView {
    match pipe {
        None => StepView::Failed(ErrorView::InvalidActionInContext),
        Some(PipeView::ScriptRef(_)) => StepView::Failed(ErrorView::InvalidActionInContext),
        Some(PipeView::HttpResponse { status_code, headers, .. }) => {
            if predicate_holds(v, status_code, headers) {
                StepView::Normal(pipe)
            } else if is_warning(v) {
                StepView::WithWarnings(pipe, seq![failure_message(v)])
            } else {
                StepView::Failed(ErrorView::Validation(failure_message(v)))
            }
        },
    }
}

/// The step a `ValidationResult` returned by a script validator turns into.
pub open spec fn validation_step_view(v: ValidationView) -> StepView {
    match v {
        ValidationView::Okay => StepView::Normal(None),
        ValidationView::OkWithWarnings(ws) => StepView::WithWarnings(None, ws),
        ValidationView::Error(m) => StepView::Failed(ErrorView::Validation(m)),
    }
}

/// The possible outcomes of a script validator: it needs a non-empty pipe and a script; then
/// the script either raises, or returns a well-formed `ValidationResult` that decides.
pub open spec fn script_check_outcome(pipe: Option<PipeView>, has_script: bool, r: StepView) -> bool {
    if pipe is None {
        r == StepView::Failed(ErrorView::InvalidActionInContext)
    } else if !has_script {
        r == StepView::Failed(ErrorView::ScriptNotInstantiated)
    } else {
        r == StepView::Failed(ErrorView::ScriptException)
        || exists|vr: ValidationView| view_wf(vr) && r == #[trigger] validation_step_view(vr)
    }
}

/// `r` is an outcome a validator can have on a pipe.
pub open spec fn validator_outcome(v: Action, pipe: Option<PipeView>, has_script: bool, r: StepView) -> bool {
    if is_script(v) {
        script_check_outcome(pipe, has_script, r)
    } else {
        r == check_view(v, pipe)
    }
}

pub open spec fn opt_ref_view(p: Option<&PipeContents>) -> Option<PipeView> {
    match p {
        Some(c) => Some(c@),
        None => None,
    }
}

/// The first header whose normalised name is that of `name`.
fn find_header(headers: &Vec<(String, String)>, name: &str) -> (r: Option<usize>)
    ensures
        match r {
            Some(i) => first_match(header_pairs_view(headers@), name@, i as int),
            None => !has_header(header_pairs_view(headers@), name@),
        },
{
    let ghost hs = header_pairs_view(headers@);
    let wanted = normalize_header_name(name);
    let mut i: usize = 0;
    while i < headers.len()
        invariant
            i <= headers.len(),
            hs == header_pairs_view(headers@),
            wanted@ == normalized(name@),
            forall|j: int| 0 <= j < i ==> !#[trigger] name_matches(hs, j, name@),
        decreases headers.len() - i,
    {
        let k = normalize_header_name(headers[i].0.as_str());
        if k == wanted {
            return Some(i);
        }
        i = i + 1;
    }
    None
}

/// Whether some header whose normalised name is that of `name` has the value `value`.
fn has_header_value(headers: &Vec<(String, String)>, name: &str, value: &String) -> (r: bool)
    ensures
        r == header_value_is(header_pairs_view(headers@), name@, value@),
{
    let ghost hs = header_pairs_view(headers@);
    let wanted = normalize_header_name(name);
    let mut i: usize = 0;
    while i < headers.len()
        invariant
            i <= headers.len(),
            hs == header_pairs_view(headers@),
            wanted@ == normalized(name@),
            forall|j: int| 0 <= j < i ==> !(#[trigger] name_matches(hs, j, name@) && hs[j].1 == value@),
        decreases headers.len() - i,
    {
        let k = normalize_header_name(headers[i].0.as_str());
        if k == wanted && headers[i].1 == *value {
            assert(name_matches(hs, i as int, name@) && hs[i as int].1 == value@);
            return true;
        }
        i = i + 1;
    }
    false
}

fn predicate_of(v: &Action, status: u16, headers: &Vec<(String, String)>) -> (r: bool)
    requires
        !is_script(*v),
    ensures
        r == predicate_holds(*v, status, header_pairs_view(headers@)),
{
    match v {
        Action::AssertHeaderEquals(h, e) | Action::WarnUnlessHeaderEquals(h, e) => {
            has_header_value(headers, h.as_str(), e)
        },
        Action::AssertHeaderExists(h) | Action::WarnUnlessHeaderExists(h) => {
            find_header(headers, h.as_str()).is_some()
        },
        Action::AssertStatusCode(c) | Action::WarnUnlessStatusCode(c) => status == *c,
        Action::AssertStatusCodeInRange(lo, hi) | Action::WarnUnlessStatusCodeInRange(lo, hi) => {
            *lo <= status && status <= *hi
        },
        Action::ScriptFunction(_) => false,
    }
}

fn message_of(v: &Action) -> (r: String)
    requires
        !is_script(*v),
    ensures
        r@ == failure_message(*v),
{
    proof {
        reveal_strlit("");
    }
    match v {
        Action::AssertHeaderEquals(h, _) | Action::WarnUnlessHeaderEquals(h, _)
        | Action::AssertHeaderExists(h) | Action::WarnUnlessHeaderExists(h) => {
            concat3("response headers did not include \"", h.as_str(), "\"")
        },
        Action::AssertStatusCode(c) | Action::WarnUnlessStatusCode(c) => {
            let r = concat3("status code not equal to ", decimal_string(*c as u64).as_str(), "");
            assert(r@ =~= status_message(*c));
            r
        },
        Action::AssertStatusCodeInRange(lo, hi) | Action::WarnUnlessStatusCodeInRange(lo, hi) => {
            let head = concat3("status code not in range [", decimal_string(*lo as u64).as_str(), ", ");
            concat3(head.as_str(), decimal_string(*hi as u64).as_str(), "]")
        },
        Action::ScriptFunction(_) => String::new(),
    }
}

fn is_warning_exec(v: &Action) -> (r: bool)
    ensures
        r == is_warning(*v),
{
    match v {
        Action::WarnUnlessHeaderEquals(..) | Action::WarnUnlessHeaderExists(..)
        | Action::WarnUnlessStatusCode(..) | Action::WarnUnlessStatusCodeInRange(..) => true,
        _ => false,
    }
}

/// The step a `ValidationResult` returned by a script validator turns into.
pub fn validation_result_step(v: ValidationResult) -> (r: StepResult)
    ensures
        step_view(r) == validation_step_view(v@),
{
    match v {
        ValidationResult::Okay => Ok(StepCompletion::Normal(None)),
        ValidationResult::OkWithWarnings(ws) => Ok(StepCompletion::WithWarnings(None, ws)),
        ValidationResult::Error(m) => Err(StepError::Validation(m)),
    }
}

/// The `WarnUnless` counterpart of an `Assert` validator (other validators are their own).
pub open spec fn warn_counterpart(v: Action) -> Action {
    match v {
        Action::AssertHeaderEquals(h, e) => Action::WarnUnlessHeaderEquals(h, e),
        Action::AssertHeaderExists(h) => Action::WarnUnlessHeaderExists(h),
        Action::AssertStatusCode(c) => Action::WarnUnlessStatusCode(c),
        Action::AssertStatusCodeInRange(lo, hi) => Action::WarnUnlessStatusCodeInRange(lo, hi),
        _ => v,
    }
}

/// `AssertHeaderExists(h)` succeeds on a response exactly when one of its headers has,
/// trimmed and lowercased, the name `h` trimmed and lowercased.
pub proof fn lemma_header_exists_normalized(h: String, status_code: u16, headers: Seq<(Seq<char>, Seq<char>)>, body: Seq<u8>, content_type: Seq<char>)
    ensures
        ({
            let p = Some(PipeView::HttpResponse { body, content_type, headers, status_code });
            is_success(check_view(Action::AssertHeaderExists(h), p))
                <==> exists|i: int| 0 <= i < headers.len() && lowercased(trimmed(#[trigger] headers[i].0)) == lowercased(trimmed(h@))
        }),
{
    let p = Some(PipeView::HttpResponse { body, content_type, headers, status_code });
    if exists|i: int| 0 <= i < headers.len() && lowercased(trimmed(#[trigger] headers[i].0)) == lowercased(trimmed(h@)) {
        let i = choose|i: int| 0 <= i < headers.len() && lowercased(trimmed(#[trigger] headers[i].0)) == lowercased(trimmed(h@));
        assert(name_matches(headers, i, h@));
    }
}

/// Each `WarnUnless` validator yields `WithWarnings`, carrying the pipe and exactly the
/// failure message, where its `Assert` counterpart fails with `Validation`; elsewhere the two
/// yield the same outcome.
pub proof fn lemma_warn_assert_parity(a: Action, pipe: Option<PipeView>)
    requires
        !is_script(a),
        !is_warning(a),
    ensures
        check_view(a, pipe) matches StepView::Failed(ErrorView::Validation(m))
            ==> check_view(warn_counterpart(a), pipe) == StepView::WithWarnings(pipe, seq![m]),
        !(check_view(a, pipe) is Failed && check_view(a, pipe)->Failed_0 is Validation)
            ==> check_view(warn_counterpart(a), pipe) == check_view(a, pipe),
{
}

/// A non-script validator has one outcome on a given pipe: running it twice gives the same.
pub proof fn lemma_validator_purity(v: Action, pipe: Option<PipeView>, has_script: bool, r1: StepView, r2: StepView)
    requires
        !is_script(v),
        validator_outcome(v, pipe, has_script, r1),
        validator_outcome(v, pipe, has_script, r2),
    ensures
        r1 == r2,
{
}

/// No validator ever asks the pipeline to exit.
pub proof fn lemma_validator_never_exits(v: Action, pipe: Option<PipeView>, has_script: bool, r: StepView)
    requires
        validator_outcome(v, pipe, has_script, r),
    ensures
        !(r is WithExit),
{
    if is_script(v) && pipe is Some && has_script && !(r == StepView::Failed(ErrorView::ScriptException)) {
        let vr = choose|vr: ValidationView| view_wf(vr) && r == #[trigger] validation_step_view(vr);
    }
}

/// Runs validators against the current pipe contents.
#[derive(Clone, Copy, Debug)]
pub struct ValidatorHandler;

impl ValidatorHandler {
    pub fn new() -> ValidatorHandler {
        ValidatorHandler
    }

    /// Runs one validator against the pipe contents, with the script bridge for script
    /// validators.
    pub fn step(&self, pipe: Option<&PipeContents>, lua: Option<&LuaForPipeline>, action: &Action) -> (r: StepResult)
        ensures
            validator_outcome(*action, opt_ref_view(pipe), lua is Some, step_view(r)),
    {
        let contents = match pipe {
            None => { return Err(StepError::InvalidActionInContext); },
            Some(c) => c,
        };
        match action {
            Action::ScriptFunction(fname) => match lua {
                None => Err(StepError::ScriptNotInstantiated),
                Some(l) => match l.run_validator_function(fname.as_str(), pipe) {
                    Ok(vr) => {
                        let ghost vv = vr@;
                        let r = validation_result_step(vr);
                        assert(view_wf(vv) && step_view(r) == validation_step_view(vv));
                        r
                    },
                    Err(e) => Err(StepError::ScriptException(e)),
                },
            },
            _ => match contents {
                PipeContents::ScriptRef(_) => Err(StepError::InvalidActionInContext),
                PipeContents::HttpResponse { status_code, headers, .. } => {
                    if predicate_of(action, *status_code, headers) {
                        Ok(StepCompletion::Normal(Some(contents.duplicate())))
                    } else if is_warning_exec(action) {
                        let ws = vec![message_of(action)];
                        let r = Ok(StepCompletion::WithWarnings(Some(contents.duplicate()), ws));
                        assert(strings_view(ws@) =~= seq![failure_message(*action)]);
                        r
                    } else {
                        Err(StepError::Validation(message_of(action)))
                    }
                },
            },
        }
    }
}

} // verus!
