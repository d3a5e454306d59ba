use vstd::prelude::*;

pub mod action;
pub mod step_handler;

use crate::combinator::{combinator_view, lemma_combinator_purity, members, valid_trace, CombinatorHandler};
use crate::http::{prepared, HttpHandler, HttpRequest};
use crate::lua::LuaForPipeline;
use crate::persona::Persona;
use crate::pipe_contents::{opt_pipe_view, PipeContents, PipeView};
use crate::validator::{is_script, lemma_validator_purity, opt_ref_view, validator_outcome, Action as ValidatorAction, ValidatorHandler};
use action::{ControlFlow, PipelineAction};
use step_handler::{step_view, strings_view, ErrorView, StepCompletion, StepError, StepResult, StepView};

verus! {

/// What the pipeline reports for one step.
#[derive(Debug)]
pub enum PipelineStepResult {
    Okay,
    OkWithWarnings(Vec<String>),
    OkWithExit,
}

/// The mathematical value of what a step reports.
pub ghost enum ReportView {
    Okay,
    OkWithWarnings(Seq<Seq<char>>),
    OkWithExit,
    Failed(ErrorView),
}

pub open spec fn report_view(r: Result<PipelineStepResult, StepError>) -> ReportView {
    match r {
        Ok(PipelineStepResult::Okay) => ReportView::Okay,
        Ok(PipelineStepResult::OkWithWarnings(ws)) => ReportView::OkWithWarnings(strings_view(ws@)),
        Ok(PipelineStepResult::OkWithExit) => ReportView::OkWithExit,
        Err(e) => ReportView::Failed(e@),
    }
}

/// What a step's outcome is reported as.
pub open spec fn reported(o: StepView) -> ReportView {
    match o {
        StepView::Normal(_) | StepView::NoIncrement(_) => ReportView::Okay,
        StepView::WithWarnings(_, ws) => ReportView::OkWithWarnings(ws),
        StepView::WithExit => ReportView::OkWithExit,
        StepView::Failed(e) => ReportView::Failed(e),
    }
}

impl PipelineStepResult {
    pub fn from_completion(c: StepCompletion) -> (r: PipelineStepResult)
        ensures
            report_view(Ok(r)) == reported(c@),
    {
        match c {
            StepCompletion::Normal(_) | StepCompletion::NoIncrement(_) => PipelineStepResult::Okay,
            StepCompletion::WithWarnings(_, ws) => PipelineStepResult::OkWithWarnings(ws),
            StepCompletion::WithExit => PipelineStepResult::OkWithExit,
        }
    }
}

/// What polling the pipeline gives.
#[derive(Debug)]
pub enum PipelinePoll {
    /// The pipeline is drained, or ended by an exit or an error: nothing more comes.
    Finished,
    /// A step ran and reported this.
    Step(Result<PipelineStepResult, StepError>),
    /// An HTTP action is due: send this request and hand its outcome to `complete_request`.
    Request(HttpRequest),
}

/// The state of a pipeline: the index of the next action, the pipe contents, the remaining
/// jumps of each jump site, whether it has ended, whether a response is awaited, and the
/// length of the sequence.
pub ghost struct PipelineView {
    pub idx: int,
    pub data: Option<PipeView>,
    pub counters: Seq<Option<usize>>,
    pub finished: bool,
    pub awaiting: bool,
    pub len: int,
}

/// The state after a step with outcome `o`: `Normal` and `WithWarnings` take their pipe
/// contents and advance; `NoIncrement` takes its pipe contents and stays; an exit or an
/// error ends the pipeline and changes nothing else.
pub open spec fn after(s: PipelineView, o: StepView) -> PipelineView {
    match o {
        StepView::Normal(d) => PipelineView { idx: s.idx + 1, data: d, ..s },
        StepView::WithWarnings(d, _) => PipelineView { idx: s.idx + 1, data: d, ..s },
        StepView::NoIncrement(d) => PipelineView { data: d, ..s },
        StepView::WithExit => PipelineView { finished: true, ..s },
        StepView::Failed(_) => PipelineView { finished: true, ..s },
    }
}

/// No further step runs: the pipeline has ended or its index is past the sequence.
pub open spec fn drained(s: PipelineView) -> bool {
    s.finished || s.idx >= s.len
}

/// What a jump site decides, given its remaining jumps and its bound.
pub ghost enum GotoDecision {
    Exit,
    /// Jump, leaving the site this many remaining jumps.
    Jump(Option<usize>),
}

/// An unbounded jump always jumps. A bound of zero exits. Otherwise the site's counter is
/// seeded with the bound on the first visit; a visit that finds it at zero exits, any other
/// visit takes one off and jumps.
pub open spec fn goto_decision(counter: Option<usize>, max_times: Option<usize>) -> GotoDecision {
    match max_times {
        None => GotoDecision::Jump(counter),
        Some(n) => {
            if n == 0 {
                GotoDecision::Exit
            } else {
                match counter {
                    Some(rem) => if rem == 0 { GotoDecision::Exit } else { GotoDecision::Jump(Some((rem - 1) as usize)) },
                    None => GotoDecision::Jump(Some((n - 1) as usize)),
                }
            }
        },
    }
}

/// The state a `GoTo` at the current index leaves and its outcome: an exit changes nothing;
/// a jump updates the site's counter, then fails past the end of the sequence, or moves to
/// `index` and empties the pipe.
pub open spec fn goto_step(s: PipelineView, index: usize, max_times: Option<usize>) -> (PipelineView, StepView) {
    match goto_decision(s.counters[s.idx], max_times) {
        GotoDecision::Exit => (s, StepView::WithExit),
        GotoDecision::Jump(c) => {
            let s1 = PipelineView { counters: s.counters.update(s.idx, c), ..s };
            if index > s.len {
                (s1, StepView::Failed(ErrorView::ActionOutOfRange))
            } else {
                (PipelineView { idx: index as int, data: None, ..s1 }, StepView::NoIncrement(None))
            }
        },
    }
}

/// The outcomes a non-control-flow, non-HTTP action can have on a pipe.
pub open spec fn action_outcome(a: PipelineAction, pipe: Option<PipeView>, has_script: bool, o: StepView) -> bool {
    match a {
        PipelineAction::Reference(_) => o == StepView::Failed(ErrorView::InvalidActionInContext),
        PipelineAction::ScriptFunction(_) => {
            if !has_script {
                o == StepView::Failed(ErrorView::ScriptNotInstantiated)
            } else {
                o == StepView::Failed(ErrorView::ScriptException)
                || (o matches StepView::Normal(Some(d)) && d is ScriptRef)
            }
        },
        PipelineAction::Validator(v) => validator_outcome(v, pipe, has_script, o),
        PipelineAction::Combinator(c) => exists|outs: Seq<StepView>|
            valid_trace(members(c), pipe, has_script, outs) && o == #[trigger] combinator_view(c, outs),
        _ => false,
    }
}

/// The counter of a jump site bounded by `n` after `v` visits from a fresh pipeline.
pub open spec fn counter_after(n: usize, v: nat) -> Option<usize>
    decreases v,
{
    if v == 0 {
        None
    } else {
        match goto_decision(counter_after(n, (v - 1) as nat), Some(n)) {
            GotoDecision::Jump(c) => c,
            GotoDecision::Exit => counter_after(n, (v - 1) as nat),
        }
    }
}

/// A jump site `GoTo { index: k, max_times: Some(n) }` jumps on each of its first `n` visits,
/// always to `k`, and exits on visit `n + 1`.
pub proof fn lemma_goto_bounded(s: PipelineView, k: usize, n: usize, v: nat)
    requires
        0 <= s.idx < s.counters.len(),
        s.counters[s.idx] == counter_after(n, v),
        k <= s.len,
        v <= n,
    ensures
        v < n ==> goto_step(s, k, Some(n)).1 == StepView::NoIncrement(None)
            && goto_step(s, k, Some(n)).0.idx == k
            && goto_step(s, k, Some(n)).0.counters[s.idx] == counter_after(n, v + 1),
        v == n ==> goto_step(s, k, Some(n)).1 == StepView::WithExit,
{
    lemma_counter_after(n, v);
    if v < n {
        lemma_counter_after(n, v + 1);
    }
}

proof fn lemma_counter_after(n: usize, v: nat)
    requires
        v <= n,
    ensures
        v == 0 ==> counter_after(n, v) is None,
        v > 0 ==> counter_after(n, v) == Some((n - v) as usize),
    decreases v,
{
    if v > 0 {
        lemma_counter_after(n, (v - 1) as nat);
    }
}

/// After an error the pipeline is drained, so polling gives `Finished` from then on; the
/// error changes nothing but that.
pub proof fn lemma_error_ends_pipeline(s: PipelineView, e: ErrorView)
    ensures
        drained(after(s, StepView::Failed(e))),
        after(s, StepView::Failed(e)) == (PipelineView { finished: true, ..s }),
{
}

/// A `Reference` standing as a pipeline action fails with `InvalidActionInContext` and
/// leaves index, pipe and jump counters as they were.
pub proof fn lemma_reference_rejected(rf: action::Reference, s: PipelineView, has_script: bool, o: StepView)
    requires
        action_outcome(PipelineAction::Reference(rf), s.data, has_script, o),
    ensures
        o == StepView::Failed(ErrorView::InvalidActionInContext),
        after(s, o).idx == s.idx,
        after(s, o).data == s.data,
        after(s, o).counters == s.counters,
        drained(after(s, o)),
{
}

/// No script is involved in the action: not a script call, and no script validator in it.
pub open spec fn script_free(a: PipelineAction) -> bool {
    match a {
        PipelineAction::ScriptFunction(_) => false,
        PipelineAction::Validator(v) => !is_script(v),
        PipelineAction::Combinator(c) => forall|i: int| 0 <= i < members(c).len() ==> !is_script(#[trigger] members(c)[i]),
        _ => true,
    }
}

/// An action that needs neither HTTP nor a script has one outcome on a given pipe: running
/// it twice against the same pipe gives the same completion.
pub proof fn lemma_action_purity(a: PipelineAction, pipe: Option<PipeView>, has_script: bool, o1: StepView, o2: StepView)
    requires
        script_free(a),
        action_outcome(a, pipe, has_script, o1),
        action_outcome(a, pipe, has_script, o2),
    ensures
        o1 == o2,
{
    match a {
        PipelineAction::Validator(v) => {
            lemma_validator_purity(v, pipe, has_script, o1, o2);
        },
        PipelineAction::Combinator(c) => {
            let outs1 = choose|outs: Seq<StepView>| valid_trace(members(c), pipe, has_script, outs) && o1 == #[trigger] combinator_view(c, outs);
            let outs2 = choose|outs: Seq<StepView>| valid_trace(members(c), pipe, has_script, outs) && o2 == #[trigger] combinator_view(c, outs);
            lemma_combinator_purity(c, pipe, has_script, outs1, outs2);
        },
        _ => {},
    }
}

struct PipelineHandlers {
    combinator: CombinatorHandler,
    http: HttpHandler,
    validator: ValidatorHandler,
}

/// Runs one grunt's persona: the action at the current index is dispatched to its handler,
/// and the outcome decides the next index and pipe contents.
pub struct Pipeline {
    grunt_name: String,
    base_url: String,
    persona: Persona,
    lua: Option<LuaForPipeline>,
    data: Option<PipeContents>,
    idx: usize,
    /// Remaining jumps of each jump site, by the index of the `GoTo` itself: two sites that
    /// share a target keep separate budgets.
    goto_counters: Vec<Option<usize>>,
    finished: bool,
    awaiting_response: bool,
    handlers: PipelineHandlers,
}

impl View for Pipeline {
    type V = PipelineView;

    closed spec fn view(&self) -> PipelineView {
        PipelineView {
            idx: self.idx as int,
            data: opt_pipe_view(self.data),
            counters: self.goto_counters@,
            finished: self.finished,
            awaiting: self.awaiting_response,
            len: self.persona.sequence@.len() as int,
        }
    }
}

impl Pipeline {
    /// The index and counters fit the sequence.
    pub closed spec fn wf(&self) -> bool {
        &&& self.goto_counters@.len() == self.persona.sequence@.len()
        &&& self.idx <= self.persona.sequence@.len()
        &&& self.persona.sequence@.len() <= usize::MAX
    }

    /// The actions being run.
    pub closed spec fn sequence(&self) -> Seq<PipelineAction> {
        self.persona.sequence@
    }

    pub closed spec fn has_script(&self) -> bool {
        self.lua is Some
    }

    /// The name of the grunt this pipeline runs for.
    pub closed spec fn spec_grunt_name(&self) -> Seq<char> {
        self.grunt_name@
    }

    /// The absolute base URL every request path is joined to.
    pub closed spec fn spec_base_url(&self) -> Seq<char> {
        self.base_url@
    }

    /// The persona being run.
    pub closed spec fn persona(&self) -> Persona {
        self.persona
    }

    /// The script bridge, if any.
    pub closed spec fn script(&self) -> Option<LuaForPipeline> {
        self.lua
    }

    /// A pipeline at the start of the persona's sequence, with an empty pipe and no jumps made.
    pub fn new(grunt_name: &str, base_url: String, persona: Persona, lua: Option<LuaForPipeline>) -> (r: Pipeline)
        ensures
            r.wf(),
            r.spec_grunt_name() == grunt_name@,
            r.spec_base_url() == base_url@,
            r.persona() == persona,
            r.script() == lua,
            r.sequence() == persona.sequence@,
            r.has_script() == (lua is Some),
            r@.idx == 0,
            r@.data is None,
            r@.counters == Seq::new(persona.sequence@.len(), |i: int| None::<usize>),
            !r@.finished,
            !r@.awaiting,
    {
        let mut goto_counters: Vec<Option<usize>> = Vec::new();
        let mut i: usize = 0;
        while i < persona.sequence.len()
            invariant
                i <= persona.sequence.len(),
                goto_counters@ == Seq::new(i as nat, |k: int| None::<usize>),
            decreases persona.sequence.len() - i,
        {
            goto_counters.push(None);
            i = i + 1;
            assert(goto_counters@ =~= Seq::new(i as nat, |k: int| None::<usize>));
        }
        Pipeline {
            grunt_name: String::from_str(grunt_name),
            base_url,
            persona,
            lua,
            data: None,
            idx: 0,
            goto_counters,
            finished: false,
            awaiting_response: false,
            handlers: PipelineHandlers {
                combinator: CombinatorHandler::new(),
                http: HttpHandler::new(),
                validator: ValidatorHandler::new(),
            },
        }
    }

    pub fn grunt_name(&self) -> (r: &String)
        ensures
            r@ == self.spec_grunt_name(),
    {
        &self.grunt_name
    }

    pub fn base_url(&self) -> (r: &String)
        ensures
            r@ == self.spec_base_url(),
    {
        &self.base_url
    }

    /// The current pipe contents.
    pub fn data(&self) -> (r: Option<&PipeContents>)
        ensures
            opt_ref_view(r) == self@.data,
    {
        self.data.as_ref()
    }

    /// Runs a validator against the current pipe contents.
    pub fn run_validator(&self, act: &ValidatorAction) -> (r: StepResult)
        ensures
            validator_outcome(*act, self@.data, self.has_script(), step_view(r)),
    {
        self.handlers.validator.step(self.data.as_ref(), self.lua.as_ref(), act)
    }

    /// Takes a step's outcome: updates the state and reports it.
    fn apply(&mut self, outcome: StepResult) -> (r: Result<PipelineStepResult, StepError>)
        requires
            old(self).wf(),
            old(self).idx < old(self).persona.sequence@.len() || !(step_view(outcome) is Normal || step_view(outcome) is WithWarnings),
        ensures
            final(self).wf(),
            final(self)@ == after(old(self)@, step_view(outcome)),
            final(self).sequence() == old(self).sequence(),
            final(self).has_script() == old(self).has_script(),
            final(self).spec_base_url() == old(self).spec_base_url(),
            report_view(r) == reported(step_view(outcome)),
            outcome matches Err(e) ==> r == Err::<PipelineStepResult, StepError>(e),
    {
        match outcome {
            Ok(StepCompletion::Normal(d)) => {
                self.data = d;
                self.idx = self.idx + 1;
                Ok(PipelineStepResult::Okay)
            },
            Ok(StepCompletion::WithWarnings(d, ws)) => {
                self.data = d;
                self.idx = self.idx + 1;
                Ok(PipelineStepResult::OkWithWarnings(ws))
            },
            Ok(StepCompletion::NoIncrement(d)) => {
                self.data = d;
                Ok(PipelineStepResult::Okay)
            },
            Ok(StepCompletion::WithExit) => {
                self.finished = true;
                Ok(PipelineStepResult::OkWithExit)
            },
            Err(e) => {
                self.finished = true;
                Err(e)
            },
        }
    }

    /// Runs the `GoTo` at the current index.
    fn try_goto(&mut self, index: usize, max_times: Option<usize>) -> (r: StepResult)
        requires
            old(self).wf(),
            old(self).idx < old(self).persona.sequence@.len(),
        ensures
            final(self).wf(),
            (final(self)@, step_view(r)) == goto_step(old(self)@, index, max_times),
            final(self).sequence() == old(self).sequence(),
            final(self).has_script() == old(self).has_script(),
            final(self).spec_base_url() == old(self).spec_base_url(),
    {
        let site = self.idx;
        let ghost old_counters = self.goto_counters@;
        if let Some(times) = max_times {
            if times == 0 {
                return Ok(StepCompletion::WithExit);
            }
            let remaining = match self.goto_counters[site] {
                Some(rem) => {
                    if rem == 0 {
                        return Ok(StepCompletion::WithExit);
                    }
                    rem
                },
                None => times,
            };
            self.goto_counters.set(site, Some(remaining - 1));
        } else {
            assert(self.goto_counters@ =~= old_counters.update(site as int, old_counters[site as int]));
        }
        if index > self.persona.sequence.len() {
            return Err(StepError::ActionOutOfRange);
        }
        self.idx = index;
        self.data = None;
        Ok(StepCompletion::NoIncrement(None))
    }

    /// Runs the action at the current index, or hands back the request of an HTTP action.
    pub fn poll(&mut self) -> (r: PipelinePoll)
        requires
            old(self).wf(),
            !old(self)@.awaiting,
        ensures
            final(self).wf(),
            final(self).sequence() == old(self).sequence(),
            final(self).has_script() == old(self).has_script(),
            final(self).spec_base_url() == old(self).spec_base_url(),
            drained(old(self)@) ==> r is Finished && final(self)@ == old(self)@,
            !drained(old(self)@) ==> match old(self).sequence()[old(self)@.idx] {
                PipelineAction::ControlFlow(ControlFlow::GoTo { index, max_times }) => {
                    let (s1, o) = goto_step(old(self)@, index, max_times);
                    r matches PipelinePoll::Step(x) && report_view(x) == reported(o) && final(self)@ == after(s1, o)
                },
                PipelineAction::Http(h) => match r {
                    PipelinePoll::Request(req) => prepared(old(self).spec_base_url(), h, old(self).has_script(), old(self)@.data, Ok(req))
                        && final(self)@ == PipelineView { awaiting: true, ..old(self)@ },
                    PipelinePoll::Step(x) => x matches Err(e)
                        && prepared(old(self).spec_base_url(), h, old(self).has_script(), old(self)@.data, Err(e))
                        && final(self)@ == after(old(self)@, StepView::Failed(e@)),
                    PipelinePoll::Finished => false,
                },
                a => exists|o: StepView| action_outcome(a, old(self)@.data, old(self).has_script(), o)
                    && #[trigger] reported(o) == report_view(r->Step_0) && r is Step
                    && final(self)@ == after(old(self)@, o),
            },
    {
        if self.finished || self.idx >= self.persona.sequence.len() {
            return PipelinePoll::Finished;
        }
        let outcome = match &self.persona.sequence[self.idx] {
            PipelineAction::ControlFlow(ControlFlow::GoTo { index, max_times }) => {
                let (index, max_times) = (*index, *max_times);
                let o = self.try_goto(index, max_times);
                return PipelinePoll::Step(self.apply(o));
            },
            PipelineAction::Http(h) => {
                match self.handlers.http.prepare(self.base_url.as_str(), self.data.as_ref(), self.lua.as_ref(), h) {
                    Ok(req) => {
                        self.awaiting_response = true;
                        return PipelinePoll::Request(req);
                    },
                    Err(e) => Err(e),
                }
            },
            PipelineAction::Reference(_) => Err(StepError::InvalidActionInContext),
            PipelineAction::ScriptFunction(name) => match &self.lua {
                None => Err(StepError::ScriptNotInstantiated),
                Some(l) => match l.run_user_script_function(name.as_str(), self.data.as_ref()) {
                    Ok(k) => Ok(StepCompletion::Normal(Some(PipeContents::ScriptRef(k)))),
                    Err(e) => Err(StepError::ScriptException(e)),
                },
            },
            PipelineAction::Validator(v) => self.handlers.validator.step(self.data.as_ref(), self.lua.as_ref(), v),
            PipelineAction::Combinator(c) => self.handlers.combinator.step(self.data.as_ref(), self.lua.as_ref(), c),
        };
        PipelinePoll::Step(self.apply(outcome))
    }

    /// Takes the outcome of the request `poll` handed back: a response becomes the pipe
    /// contents and the pipeline advances; a failure ends it.
    pub fn complete_request(&mut self, response: Result<PipeContents, StepError>) -> (r: Result<PipelineStepResult, StepError>)
        requires
            old(self).wf(),
            old(self)@.awaiting,
            !drained(old(self)@),
        ensures
            final(self).wf(),
            final(self).sequence() == old(self).sequence(),
            final(self).has_script() == old(self).has_script(),
            final(self).spec_base_url() == old(self).spec_base_url(),
            ({
                let s = PipelineView { awaiting: false, ..old(self)@ };
                let o = match response {
                    Ok(p) => StepView::Normal(Some(p@)),
                    Err(e) => StepView::Failed(e@),
                };
                final(self)@ == after(s, o) && report_view(r) == reported(o)
            }),
    {
        self.awaiting_response = false;
        let outcome = match response {
            Ok(p) => Ok(StepCompletion::Normal(Some(p))),
            Err(e) => Err(e),
        };
        self.apply(outcome)
    }

    /// The index of the next action.
    pub fn index(&self) -> (r: usize)
        ensures
            r as int == self@.idx,
    {
        self.idx
    }

    /// Whether polling can still run a step.
    pub fn is_drained(&self) -> (r: bool)
        ensures
            r == drained(self@),
    {
        self.finished || self.idx >= self.persona.sequence.len()
    }

    /// Whether a request handed back by `poll` awaits its outcome.
    pub fn is_awaiting_response(&self) -> (r: bool)
        ensures
            r == self@.awaiting,
    {
        self.awaiting_response
    }
}

} // verus!
