use vstd::prelude::*;

use crate::lua::LuaForPipeline;
use crate::pipe_contents::{PipeContents, PipeView};
use crate::pipeline::step_handler::{
    is_success, step_view, strings_view, ErrorView, StepCompletion, StepError, StepResult, StepView,
};
use crate::validator::{
    check_view, is_script, lemma_validator_never_exits, lemma_validator_purity, opt_ref_view, validator_outcome, Action as ValidatorAction, ValidatorHandler,
};

verus! {

/// Boolean composition of validators.
#[derive(Clone, Debug, PartialEq, Eq)]
pub enum Action {
    AllOf(Vec<ValidatorAction>),
    AnyOf(Vec<ValidatorAction>),
    NoneOf(Vec<ValidatorAction>),
}

pub const NO_VALIDATOR_SUCCEEDED_MSG: &'static str = "no validators in combinator succeeded";

/// `outs[i]` is an outcome validator `vs[i]` can have on the pipe, for each `i`.
pub open spec fn valid_trace(vs: Seq<ValidatorAction>, pipe: Option<PipeView>, has_script: bool, outs: Seq<StepView>) -> bool {
    &&& outs.len() == vs.len()
    &&& forall|i: int| 0 <= i < vs.len() ==> validator_outcome(vs[i], pipe, has_script, #[trigger] outs[i])
}

pub open spec fn warnings_of(o: StepView) -> Seq<Seq<char>> {
    match o {
        StepView::WithWarnings(_, ws) => ws,
        _ => Seq::empty(),
    }
}

pub open spec fn with_warnings(ws: Seq<Seq<char>>) -> StepView {
    if ws.len() == 0 {
        StepView::Normal(None)
    } else {
        StepView::WithWarnings(None, ws)
    }
}

/// `AllOf` over the outcomes of its validators in order: the first failure is its outcome;
/// otherwise it passes with the warnings gathered, if any.
pub open spec fn all_of_view(outs: Seq<StepView>) -> StepView
    decreases outs.len(),
{
    if outs.len() == 0 {
        StepView::Normal(None)
    } else {
        let p = all_of_view(outs.drop_last());
        let o = outs.last();
        if p is Failed {
            p
        } else if o is Failed {
            o
        } else {
            with_warnings(warnings_of(p) + warnings_of(o))
        }
    }
}

/// `AnyOf` over the outcomes of its validators in order: the first success is its outcome;
/// when none succeeds it fails.
pub open spec fn any_of_view(outs: Seq<StepView>) -> StepView
    decreases outs.len(),
{
    if outs.len() == 0 {
        StepView::Failed(ErrorView::Validation(NO_VALIDATOR_SUCCEEDED_MSG@))
    } else {
        let p = any_of_view(outs.drop_last());
        if is_success(p) {
            p
        } else if is_success(outs.last()) {
            outs.last()
        } else {
            StepView::Failed(ErrorView::Validation(NO_VALIDATOR_SUCCEEDED_MSG@))
        }
    }
}

/// `NoneOf`: fails when `AnyOf` would succeed, passes when it would fail.
pub open spec fn none_of_view(outs: Seq<StepView>) -> StepView {
    if is_success(any_of_view(outs)) {
        StepView::Failed(ErrorView::ValidationSucceededUnexpectedly)
    } else {
        StepView::Normal(None)
    }
}

pub open spec fn combinator_view(c: Action, outs: Seq<StepView>) -> StepView {
    match c {
        Action::AllOf(_) => all_of_view(outs),
        Action::AnyOf(_) => any_of_view(outs),
        Action::NoneOf(_) => none_of_view(outs),
    }
}

pub open spec fn members(c: Action) -> Seq<ValidatorAction> {
    match c {
        Action::AllOf(vs) => vs@,
        Action::AnyOf(vs) => vs@,
        Action::NoneOf(vs) => vs@,
    }
}

/// An outcome validator `v` can always have on the pipe.
pub open spec fn some_outcome(v: ValidatorAction, pipe: Option<PipeView>, has_script: bool) -> StepView {
    if !is_script(v) {
        check_view(v, pipe)
    } else if pipe is None {
        StepView::Failed(ErrorView::InvalidActionInContext)
    } else if !has_script {
        StepView::Failed(ErrorView::ScriptNotInstantiated)
    } else {
        StepView::Failed(ErrorView::ScriptException)
    }
}

proof fn lemma_complete_trace(vs: Seq<ValidatorAction>, pipe: Option<PipeView>, has_script: bool, outs: Seq<StepView>) -> (full: Seq<StepView>)
    requires
        outs.len() <= vs.len(),
        forall|i: int| 0 <= i < outs.len() ==> validator_outcome(vs[i], pipe, has_script, #[trigger] outs[i]),
    ensures
        valid_trace(vs, pipe, has_script, full),
        full.subrange(0, outs.len() as int) == outs,
{
    let ext = Seq::new((vs.len() - outs.len()) as nat, |k: int| some_outcome(vs[outs.len() + k], pipe, has_script));
    let full = outs + ext;
    assert forall|i: int| 0 <= i < vs.len() implies validator_outcome(vs[i], pipe, has_script, #[trigger] full[i]) by {
        if i >= outs.len() {
            assert(full[i] == some_outcome(vs[i], pipe, has_script));
        }
    }
    assert(full.subrange(0, outs.len() as int) =~= outs);
    full
}

proof fn lemma_all_of_failed_prefix(outs: Seq<StepView>, ext: Seq<StepView>)
    requires
        all_of_view(outs) is Failed,
    ensures
        all_of_view(outs + ext) == all_of_view(outs),
    decreases ext.len(),
{
    if ext.len() > 0 {
        lemma_all_of_failed_prefix(outs, ext.drop_last());
        assert((outs + ext).drop_last() =~= outs + ext.drop_last());
    } else {
        assert(outs + ext =~= outs);
    }
}

proof fn lemma_any_of_success_prefix(outs: Seq<StepView>, ext: Seq<StepView>)
    requires
        is_success(any_of_view(outs)),
    ensures
        any_of_view(outs + ext) == any_of_view(outs),
    decreases ext.len(),
{
    if ext.len() > 0 {
        lemma_any_of_success_prefix(outs, ext.drop_last());
        assert((outs + ext).drop_last() =~= outs + ext.drop_last());
    } else {
        assert(outs + ext =~= outs);
    }
}

proof fn lemma_all_of_success(outs: Seq<StepView>)
    requires
        forall|i: int| 0 <= i < outs.len() ==> !(#[trigger] outs[i] is WithExit),
    ensures
        is_success(all_of_view(outs)) <==> forall|i: int| 0 <= i < outs.len() ==> is_success(#[trigger] outs[i]),
        !is_success(all_of_view(outs)) ==> all_of_view(outs) is Failed,
    decreases outs.len(),
{
    if outs.len() > 0 {
        let pre = outs.drop_last();
        assert forall|i: int| 0 <= i < pre.len() implies !(#[trigger] pre[i] is WithExit) by {
            assert(pre[i] == outs[i]);
        }
        lemma_all_of_success(pre);
        if forall|i: int| 0 <= i < outs.len() ==> is_success(#[trigger] outs[i]) {
            assert forall|i: int| 0 <= i < pre.len() implies is_success(#[trigger] pre[i]) by {
                assert(pre[i] == outs[i]);
            }
            assert(is_success(outs[outs.len() - 1]));
        }
        if is_success(all_of_view(outs)) {
            assert forall|i: int| 0 <= i < outs.len() implies is_success(#[trigger] outs[i]) by {
                if i < pre.len() {
                    assert(pre[i] == outs[i]);
                }
            }
        }
    }
}

proof fn lemma_any_of_success(outs: Seq<StepView>)
    ensures
        is_success(any_of_view(outs)) <==> exists|i: int| 0 <= i < outs.len() && is_success(#[trigger] outs[i]),
    decreases outs.len(),
{
    if outs.len() > 0 {
        let pre = outs.drop_last();
        lemma_any_of_success(pre);
        if exists|i: int| 0 <= i < pre.len() && is_success(#[trigger] pre[i]) {
            let i = choose|i: int| 0 <= i < pre.len() && is_success(#[trigger] pre[i]);
            assert(outs[i] == pre[i]);
        }
        if exists|i: int| 0 <= i < outs.len() && is_success(#[trigger] outs[i]) {
            let i = choose|i: int| 0 <= i < outs.len() && is_success(#[trigger] outs[i]);
            if i < pre.len() {
                assert(pre[i] == outs[i]);
            }
        }
    }
}

/// Over the outcomes its validators have on a pipe, `AllOf` succeeds exactly when every
/// validator succeeds, `AnyOf` exactly when some validator succeeds, and `NoneOf` exactly
/// when no validator succeeds.
pub proof fn lemma_combinator_algebra(vs: Seq<ValidatorAction>, pipe: Option<PipeView>, has_script: bool, outs: Seq<StepView>)
    requires
        valid_trace(vs, pipe, has_script, outs),
    ensures
        is_success(all_of_view(outs)) <==> forall|i: int| 0 <= i < outs.len() ==> is_success(#[trigger] outs[i]),
        is_success(any_of_view(outs)) <==> exists|i: int| 0 <= i < outs.len() && is_success(#[trigger] outs[i]),
        is_success(none_of_view(outs)) <==> !exists|i: int| 0 <= i < outs.len() && is_success(#[trigger] outs[i]),
{
    assert forall|i: int| 0 <= i < outs.len() implies !(#[trigger] outs[i] is WithExit) by {
        lemma_validator_never_exits(vs[i], pipe, has_script, outs[i]);
    }
    lemma_all_of_success(outs);
    lemma_any_of_success(outs);
}

/// A combinator of non-script validators has one outcome on a given pipe: the outcomes of
/// its validators are fixed, and so is what they combine to.
pub proof fn lemma_combinator_purity(c: Action, pipe: Option<PipeView>, has_script: bool, outs1: Seq<StepView>, outs2: Seq<StepView>)
    requires
        forall|i: int| 0 <= i < members(c).len() ==> !is_script(#[trigger] members(c)[i]),
        valid_trace(members(c), pipe, has_script, outs1),
        valid_trace(members(c), pipe, has_script, outs2),
    ensures
        combinator_view(c, outs1) == combinator_view(c, outs2),
{
    assert forall|i: int| 0 <= i < outs1.len() implies outs1[i] == outs2[i] by {
        lemma_validator_purity(members(c)[i], pipe, has_script, outs1[i], outs2[i]);
    }
    assert(outs1 =~= outs2);
}

/// Runs combinators, running their validators through a validator handler.
#[derive(Clone, Copy, Debug)]
pub struct CombinatorHandler {
    validator: ValidatorHandler,
}

impl CombinatorHandler {
    pub fn new() -> CombinatorHandler {
        CombinatorHandler { validator: ValidatorHandler::new() }
    }

    /// Runs one combinator against the pipe contents. `AllOf` and `NoneOf` complete with no
    /// pipe contents, `AnyOf` with what its first passing validator completed with.
    pub fn step(&self, pipe: Option<&PipeContents>, lua: Option<&LuaForPipeline>, action: &Action) -> (r: StepResult)
        ensures
            exists|outs: Seq<StepView>|
                valid_trace(members(*action), opt_ref_view(pipe), lua is Some, outs)
                && step_view(r) == #[trigger] combinator_view(*action, outs),
    {
        let ghost pv = opt_ref_view(pipe);
        let ghost hs = lua is Some;
        match action {
            Action::AllOf(vs) => {
                let r = self.all_of(pipe, lua, vs);
                let ghost outs = choose|outs: Seq<StepView>| valid_trace(vs@, pv, hs, outs) && step_view(r) == #[trigger] all_of_view(outs);
                assert(combinator_view(*action, outs) == all_of_view(outs));
                r
            },
            Action::AnyOf(vs) => {
                let r = self.any_of(pipe, lua, vs);
                let ghost outs = choose|outs: Seq<StepView>| valid_trace(vs@, pv, hs, outs) && step_view(r) == #[trigger] any_of_view(outs);
                assert(combinator_view(*action, outs) == any_of_view(outs));
                r
            },
            Action::NoneOf(vs) => {
                let a = self.any_of(pipe, lua, vs);
                let ghost outs = choose|outs: Seq<StepView>| valid_trace(vs@, pv, hs, outs) && step_view(a) == #[trigger] any_of_view(outs);
                let r = match a {
                    Ok(_) => Err(StepError::ValidationSucceededUnexpectedly),
                    Err(_) => Ok(StepCompletion::Normal(None)),
                };
                assert(combinator_view(*action, outs) == none_of_view(outs));
                assert(step_view(r) == none_of_view(outs));
                r
            },
        }
    }

    fn all_of(&self, pipe: Option<&PipeContents>, lua: Option<&LuaForPipeline>, vs: &Vec<ValidatorAction>) -> (r: StepResult)
        ensures
            exists|outs: Seq<StepView>|
                valid_trace(vs@, opt_ref_view(pipe), lua is Some, outs)
                && step_view(r) == #[trigger] all_of_view(outs),
    {
        let ghost pv = opt_ref_view(pipe);
        let ghost hs = lua is Some;
        let ghost mut outs: Seq<StepView> = Seq::empty();
        let mut warnings: Vec<String> = Vec::new();
        let mut i: usize = 0;
        while i < vs.len()
            invariant
                i <= vs.len(),
                pv == opt_ref_view(pipe),
                hs == (lua is Some),
                outs.len() == i,
                forall|j: int| 0 <= j < i ==> validator_outcome(vs@[j], pv, hs, #[trigger] outs[j]),
                all_of_view(outs) == with_warnings(strings_view(warnings@)),
            decreases vs.len() - i,
        {
            let r = self.validator.step(pipe, lua, &vs[i]);
            proof {
                assert(outs.push(step_view(r)).drop_last() =~= outs);
                outs = outs.push(step_view(r));
            }
            match r {
                Err(e) => {
                    proof {
                        let full = lemma_complete_trace(vs@, pv, hs, outs);
                        assert(all_of_view(outs) == StepView::Failed(e@));
                        lemma_all_of_failed_prefix(outs, full.subrange(outs.len() as int, full.len() as int));
                        assert(outs + full.subrange(outs.len() as int, full.len() as int) =~= full);
                    }
                    return Err(e);
                },
                Ok(StepCompletion::WithWarnings(_, mut ws)) => {
                    let ghost before = warnings@;
                    warnings.append(&mut ws);
                    assert(strings_view(warnings@) =~= strings_view(before) + warnings_of(outs.last()));
                },
                Ok(StepCompletion::WithExit) => {
                    proof {
                        assert(validator_outcome(vs@[i as int], pv, hs, StepView::WithExit));
                        assert(false);
                    }
                },
                Ok(_) => {
                    assert(strings_view(warnings@) =~= strings_view(warnings@) + warnings_of(outs.last()));
                },
            }
            i = i + 1;
        }
        if warnings.len() == 0 {
            Ok(StepCompletion::Normal(None))
        } else {
            Ok(StepCompletion::WithWarnings(None, warnings))
        }
    }

    fn any_of(&self, pipe: Option<&PipeContents>, lua: Option<&LuaForPipeline>, vs: &Vec<ValidatorAction>) -> (r: StepResult)
        ensures
            exists|outs: Seq<StepView>|
                valid_trace(vs@, opt_ref_view(pipe), lua is Some, outs)
                && step_view(r) == #[trigger] any_of_view(outs),
    {
        let ghost pv = opt_ref_view(pipe);
        let ghost hs = lua is Some;
        let ghost mut outs: Seq<StepView> = Seq::empty();
        let mut i: usize = 0;
        while i < vs.len()
            invariant
                i <= vs.len(),
                pv == opt_ref_view(pipe),
                hs == (lua is Some),
                outs.len() == i,
                forall|j: int| 0 <= j < i ==> validator_outcome(vs@[j], pv, hs, #[trigger] outs[j]),
                any_of_view(outs) == StepView::Failed(ErrorView::Validation(NO_VALIDATOR_SUCCEEDED_MSG@)),
            decreases vs.len() - i,
        {
            let r = self.validator.step(pipe, lua, &vs[i]);
            proof {
                assert(outs.push(step_view(r)).drop_last() =~= outs);
                outs = outs.push(step_view(r));
            }
            match r {
                Ok(c) => {
                    proof {
                        if c is WithExit {
                            assert(validator_outcome(vs@[i as int], pv, hs, StepView::WithExit));
                        }
                        let full = lemma_complete_trace(vs@, pv, hs, outs);
                        lemma_any_of_success_prefix(outs, full.subrange(outs.len() as int, full.len() as int));
                        assert(outs + full.subrange(outs.len() as int, full.len() as int) =~= full);
                    }
                    return Ok(c);
                },
                Err(_) => {},
            }
            i = i + 1;
        }
        proof {
            reveal_strlit("no validators in combinator succeeded");
        }
        Err(StepError::Validation(String::from_str(NO_VALIDATOR_SUCCEEDED_MSG)))
    }
}

} // verus!
