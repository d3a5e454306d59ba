use seatrial::combinator::Action as Combinator;
use seatrial::config_duration::ConfigDuration;
use seatrial::http::{Action as Http, HttpRequest, Verb};
use seatrial::lua::LuaForPipeline;
use seatrial::persona::Persona;
use seatrial::pipe_contents::PipeContents;
use seatrial::pipeline::action::{ControlFlow, PipelineAction as PA, Reference};
use seatrial::pipeline::step_handler::StepError;
use seatrial::pipeline::{Pipeline, PipelinePoll, PipelineStepResult};
use seatrial::validator::Action as V;

fn get(url: &str, params: Option<Vec<(String, Reference)>>) -> PA {
    PA::Http(Http::Get { url: url.into(), headers: None, params, timeout: None })
}

fn response(status_code: u16) -> PipeContents {
    PipeContents::HttpResponse {
        body: b"hi".to_vec(),
        content_type: "text/plain".into(),
        headers: vec![("X-A".into(), "1".into())],
        status_code,
    }
}

fn pipeline(sequence: Vec<PA>, lua: Option<LuaForPipeline>) -> Pipeline {
    let persona = Persona { timeout: ConfigDuration::Seconds(5), headers: vec![], sequence };
    Pipeline::new("tester", "http://localhost:8080/".to_string(), persona, lua)
}

fn describe(r: Result<PipelineStepResult, StepError>) -> String {
    match r {
        Ok(PipelineStepResult::Okay) => "Ok".into(),
        Ok(PipelineStepResult::OkWithWarnings(ws)) => format!("OkWithWarnings({:?})", ws),
        Ok(PipelineStepResult::OkWithExit) => "OkWithExit".into(),
        Err(StepError::Validation(m)) => format!("Validation({})", m),
        Err(e) => format!("{:?}", e),
    }
}

/// Polls until the pipeline finishes, answering each request with `respond`.
fn run<F: Fn(&HttpRequest) -> Result<PipeContents, StepError>>(pl: &mut Pipeline, respond: F) -> (Vec<String>, Vec<HttpRequest>) {
    let mut outcomes = vec![];
    let mut requests = vec![];
    for _ in 0..100 {
        match pl.poll() {
            PipelinePoll::Finished => return (outcomes, requests),
            PipelinePoll::Step(r) => outcomes.push(describe(r)),
            PipelinePoll::Request(req) => {
                let resp = respond(&req);
                requests.push(req);
                outcomes.push(describe(pl.complete_request(resp)));
            }
        }
    }
    panic!("pipeline did not finish: {:?}", outcomes);
}

#[test]
fn s1_get_then_assert() {
    let mut pl = pipeline(vec![get("/ok", None), PA::Validator(V::AssertStatusCode(200))], None);
    let (outcomes, requests) = run(&mut pl, |_| Ok(response(200)));
    assert_eq!(outcomes, vec!["Ok", "Ok"]);
    assert_eq!(requests[0].url, "http://localhost:8080/ok");
    assert_eq!(requests[0].verb, Verb::Get);
    assert!(matches!(pl.poll(), PipelinePoll::Finished));
}

#[test]
fn s2_failed_assertion_ends_pipeline() {
    let mut pl = pipeline(vec![get("/nf", None), PA::Validator(V::AssertStatusCode(200))], None);
    let (outcomes, _) = run(&mut pl, |_| Ok(response(404)));
    assert_eq!(outcomes, vec!["Ok", "Validation(status code not equal to 200)"]);
    assert!(matches!(pl.poll(), PipelinePoll::Finished));
    assert!(matches!(pl.poll(), PipelinePoll::Finished));
}

#[test]
fn s3_any_of() {
    let mut pl = pipeline(
        vec![
            get("/ok", None),
            PA::Combinator(Combinator::AnyOf(vec![V::AssertStatusCode(500), V::AssertStatusCodeInRange(200, 299)])),
        ],
        None,
    );
    assert_eq!(run(&mut pl, |_| Ok(response(200))).0, vec!["Ok", "Ok"]);
}

#[test]
fn s4_none_of() {
    let mut pl = pipeline(
        vec![get("/ok", None), PA::Combinator(Combinator::NoneOf(vec![V::AssertStatusCode(200)]))],
        None,
    );
    assert_eq!(run(&mut pl, |_| Ok(response(200))).0, vec!["Ok", "ValidationSucceededUnexpectedly"]);
}

#[test]
fn s5_script_value_feeds_query_param() {
    let lua = LuaForPipeline::with_user_script_source(
        "return { extract = function(resp) return { id = \"42\" } end }",
    )
    .unwrap();
    let mut pl = pipeline(
        vec![
            get("/ok", None),
            PA::ScriptFunction("extract".into()),
            get("/q", Some(vec![("x".into(), Reference::ScriptTableKey("id".into()))])),
        ],
        Some(lua),
    );
    let (outcomes, requests) = run(&mut pl, |_| Ok(response(200)));
    assert_eq!(outcomes, vec!["Ok", "Ok", "Ok"]);
    assert_eq!(requests.len(), 2);
    assert_eq!(requests[1].url, "http://localhost:8080/q");
    assert_eq!(requests[1].params, vec![("x".to_string(), "42".to_string())]);
}

#[test]
fn s6_bounded_loop() {
    let mut pl = pipeline(
        vec![get("/ok", None), PA::ControlFlow(ControlFlow::GoTo { index: 0, max_times: Some(2) })],
        None,
    );
    let (outcomes, requests) = run(&mut pl, |_| Ok(response(200)));
    assert_eq!(outcomes, vec!["Ok", "Ok", "Ok", "Ok", "Ok", "OkWithExit"]);
    assert_eq!(requests.len(), 3);
}

#[test]
fn goto_with_zero_bound_exits() {
    let mut pl = pipeline(vec![PA::ControlFlow(ControlFlow::GoTo { index: 0, max_times: Some(0) })], None);
    assert_eq!(run(&mut pl, |_| Ok(response(200))).0, vec!["OkWithExit"]);
}

#[test]
fn goto_past_the_end_is_out_of_range() {
    let mut pl = pipeline(vec![PA::ControlFlow(ControlFlow::GoTo { index: 2, max_times: None })], None);
    assert_eq!(run(&mut pl, |_| Ok(response(200))).0, vec!["ActionOutOfRange"]);
    let mut pl = pipeline(vec![PA::ControlFlow(ControlFlow::GoTo { index: 1, max_times: None })], None);
    assert_eq!(run(&mut pl, |_| Ok(response(200))).0, vec!["Ok"]);
}

#[test]
fn jump_sites_keep_their_own_counters() {
    let mut pl = pipeline(
        vec![
            PA::ControlFlow(ControlFlow::GoTo { index: 2, max_times: Some(1) }),
            PA::ControlFlow(ControlFlow::GoTo { index: 3, max_times: Some(1) }),
            PA::ControlFlow(ControlFlow::GoTo { index: 1, max_times: Some(1) }),
            PA::ControlFlow(ControlFlow::GoTo { index: 0, max_times: Some(1) }),
        ],
        None,
    );
    // site 0 -> 2, site 2 -> 1, site 1 -> 3, site 3 -> 0, then site 0 has no jumps left
    assert_eq!(run(&mut pl, |_| Ok(response(200))).0, vec!["Ok", "Ok", "Ok", "Ok", "OkWithExit"]);
}

#[test]
fn top_level_reference_is_invalid_without_effect() {
    for r in [Reference::Value("x".into()), Reference::ScriptValue, Reference::ScriptTableIndex(1), Reference::ScriptTableKey("k".into())] {
        let mut pl = pipeline(vec![PA::Reference(r)], None);
        assert!(matches!(pl.poll(), PipelinePoll::Step(Err(StepError::InvalidActionInContext))));
        assert_eq!(pl.index(), 0);
        assert!(pl.data().is_none());
        assert!(matches!(pl.poll(), PipelinePoll::Finished));
    }
}

#[test]
fn transport_error_ends_pipeline() {
    let mut pl = pipeline(vec![get("/ok", None), get("/ok", None)], None);
    let (outcomes, requests) = run(&mut pl, |_| Err(StepError::Http("connection refused".into())));
    assert_eq!(outcomes, vec!["Http(\"connection refused\")"]);
    assert_eq!(requests.len(), 1);
    assert!(pl.is_drained());
}

#[test]
fn bad_url_is_a_url_parsing_error() {
    let mut pl = pipeline(vec![get("http://[::1", Some(vec![("x".into(), Reference::ScriptValue)]))], None);
    // the join fails before the reference (which would need a script) is realised
    assert!(matches!(pl.poll(), PipelinePoll::Step(Err(StepError::UrlParsing(_)))));
}

#[test]
fn new_pipeline_keeps_its_setup() {
    let pl = pipeline(vec![get("/ok", None)], None);
    assert_eq!(pl.grunt_name(), "tester");
    assert_eq!(pl.base_url(), "http://localhost:8080/");
    assert_eq!(pl.index(), 0);
    assert!(pl.data().is_none());
    assert!(!pl.is_drained());
}

#[test]
fn request_carries_realised_headers_and_timeout() {
    let action = PA::Http(Http::Post {
        url: "/submit".into(),
        headers: Some(vec![("X-B".into(), Reference::Value("v".into()))]),
        params: Some(vec![("a".into(), Reference::Value("1".into())), ("b".into(), Reference::Value("2".into()))]),
        timeout: Some(ConfigDuration::Milliseconds(250)),
    });
    let mut pl = pipeline(vec![action], None);
    match pl.poll() {
        PipelinePoll::Request(req) => {
            assert_eq!(req.verb, Verb::Post);
            assert_eq!(req.url, "http://localhost:8080/submit");
            assert_eq!(req.headers, vec![("X-B".to_string(), "v".to_string())]);
            assert_eq!(req.params, vec![("a".to_string(), "1".to_string()), ("b".to_string(), "2".to_string())]);
            assert_eq!(req.timeout, Some(ConfigDuration::Milliseconds(250)));
        }
        other => panic!("unexpected {:?}", other),
    }
    assert!(pl.is_awaiting_response());
}

#[test]
fn script_function_without_script() {
    let mut pl = pipeline(vec![PA::ScriptFunction("f".into())], None);
    assert_eq!(run(&mut pl, |_| Ok(response(200))).0, vec!["ScriptNotInstantiated"]);
    let mut pl = pipeline(vec![get("/q", Some(vec![("x".into(), Reference::ScriptValue)]))], None);
    assert_eq!(run(&mut pl, |_| Ok(response(200))).0, vec!["ScriptNotInstantiated"]);
}

fn script_param(script: &str, function: &str, reference: Reference) -> Vec<String> {
    let lua = LuaForPipeline::with_user_script_source(script).unwrap();
    let mut pl = pipeline(
        vec![
            get("/ok", None),
            PA::ScriptFunction(function.into()),
            get("/q", Some(vec![("x".into(), reference)])),
        ],
        Some(lua),
    );
    let (mut outcomes, requests) = run(&mut pl, |_| Ok(response(200)));
    if let Some(r) = requests.get(1) {
        outcomes.push(r.params[0].1.clone());
    }
    outcomes
}

const SCRIPT: &str = "return {
  tbl = function(resp) return { 7, true, -7, 1.5, name = \"n\", nested = {} } end,
  str = function(resp) return \"plain\" end,
  summary = function(resp)
    return { s = resp.status_code .. \":\" .. resp.body_string .. \":\" .. resp.headers[\"X-A\"] .. \":\" .. #resp.body .. \":\" .. resp.content_type }
  end,
  boom = function(resp) error(\"boom\") end,
  warn = function(resp) return ValidationResult.OkWithWarnings(\"careful\") end,
  fail = function(resp) return ValidationResult.Err(\"nope\") end,
  pass = function(resp) return ValidationResult.Ok() end,
}";

#[test]
fn script_values_are_stringified() {
    assert_eq!(script_param(SCRIPT, "tbl", Reference::ScriptTableIndex(1)), vec!["Ok", "Ok", "Ok", "7"]);
    assert_eq!(script_param(SCRIPT, "tbl", Reference::ScriptTableIndex(2)), vec!["Ok", "Ok", "Ok", "true"]);
    assert_eq!(script_param(SCRIPT, "tbl", Reference::ScriptTableIndex(3)), vec!["Ok", "Ok", "Ok", "-7"]);
    assert_eq!(script_param(SCRIPT, "tbl", Reference::ScriptTableIndex(4)), vec!["Ok", "Ok", "Ok", "1.5"]);
    assert_eq!(script_param(SCRIPT, "tbl", Reference::ScriptTableKey("name".into())), vec!["Ok", "Ok", "Ok", "n"]);
    assert_eq!(script_param(SCRIPT, "str", Reference::ScriptValue), vec!["Ok", "Ok", "Ok", "plain"]);
}

#[test]
fn response_is_given_to_scripts_as_a_table() {
    assert_eq!(
        script_param(SCRIPT, "summary", Reference::ScriptTableKey("s".into())),
        vec!["Ok", "Ok", "Ok", "200:hi:1:2:text/plain"]
    );
}

#[test]
fn unstringifiable_script_values_are_refused() {
    assert_eq!(script_param(SCRIPT, "tbl", Reference::ScriptValue), vec!["Ok", "Ok", "RefuseToStringifyComplex"]);
    assert_eq!(script_param(SCRIPT, "tbl", Reference::ScriptTableKey("nested".into())), vec!["Ok", "Ok", "RefuseToStringifyComplex"]);
    assert_eq!(script_param(SCRIPT, "tbl", Reference::ScriptTableKey("missing".into())), vec!["Ok", "Ok", "RefuseToStringifyNonExistent"]);
}

#[test]
fn script_references_need_a_script_value_in_the_pipe() {
    let lua = LuaForPipeline::with_user_script_source(SCRIPT).unwrap();
    let mut pl = pipeline(vec![get("/q", Some(vec![("x".into(), Reference::ScriptValue)]))], Some(lua));
    assert_eq!(run(&mut pl, |_| Ok(response(200))).0, vec!["RequestedScriptValueWhereNoneExists"]);
    let lua = LuaForPipeline::with_user_script_source(SCRIPT).unwrap();
    let mut pl = pipeline(vec![get("/ok", None), get("/q", Some(vec![("x".into(), Reference::ScriptValue)]))], Some(lua));
    assert_eq!(run(&mut pl, |_| Ok(response(200))).0, vec!["Ok", "InvalidActionInContext"]);
}

#[test]
fn script_errors_end_the_pipeline() {
    let lua = LuaForPipeline::with_user_script_source(SCRIPT).unwrap();
    let mut pl = pipeline(vec![PA::ScriptFunction("boom".into())], Some(lua));
    let outcomes = run(&mut pl, |_| Ok(response(200))).0;
    assert_eq!(outcomes.len(), 1);
    assert!(outcomes[0].starts_with("ScriptException"), "{:?}", outcomes);
}

#[test]
fn script_validators() {
    let cases = [
        ("pass", "Ok"),
        ("warn", "OkWithWarnings([\"careful\"])"),
        ("fail", "Validation(nope)"),
    ];
    for (function, expected) in cases {
        let lua = LuaForPipeline::with_user_script_source(SCRIPT).unwrap();
        let mut pl = pipeline(vec![get("/ok", None), PA::Validator(V::ScriptFunction(function.into()))], Some(lua));
        assert_eq!(run(&mut pl, |_| Ok(response(200))).0, vec!["Ok", expected]);
    }
}

#[test]
fn warnings_are_reported() {
    let mut pl = pipeline(vec![get("/ok", None), PA::Validator(V::WarnUnlessStatusCode(201)), PA::Validator(V::AssertStatusCode(200))], None);
    assert_eq!(
        run(&mut pl, |_| Ok(response(200))).0,
        vec!["Ok", "OkWithWarnings([\"status code not equal to 201\"])", "Ok"]
    );
}
