use seatrial::combinator::{Action as Combinator, CombinatorHandler};
use seatrial::pipe_contents::PipeContents;
use seatrial::pipeline::step_handler::{StepCompletion, StepError};
use seatrial::validator::{normalize_header_name, Action as V, ValidatorHandler};

fn response(status_code: u16, headers: &[(&str, &str)]) -> PipeContents {
    PipeContents::HttpResponse {
        body: b"hi".to_vec(),
        content_type: "text/plain".into(),
        headers: headers.iter().map(|(k, v)| (k.to_string(), v.to_string())).collect(),
        status_code,
    }
}

fn check(v: V, pipe: &PipeContents) -> Result<StepCompletion, StepError> {
    ValidatorHandler::new().step(Some(pipe), None, &v)
}

fn validation_message(r: Result<StepCompletion, StepError>) -> String {
    match r {
        Err(StepError::Validation(m)) => m,
        other => panic!("expected a validation error, got {:?}", other),
    }
}

fn status_of(p: &Option<PipeContents>) -> Option<u16> {
    match p {
        Some(PipeContents::HttpResponse { status_code, .. }) => Some(*status_code),
        _ => None,
    }
}

#[test]
fn header_names_are_trimmed_and_lowercased() {
    assert_eq!(normalize_header_name("  X-Foo "), "x-foo");
    assert_eq!(normalize_header_name("Content-TYPE"), "content-type");
}

#[test]
fn header_exists_normalizes_both_sides() {
    let v = V::AssertHeaderExists("  X-Foo ".into());
    assert!(matches!(check(v.clone(), &response(200, &[("x-foo", "1")])), Ok(StepCompletion::Normal(Some(_)))));
    assert!(matches!(check(v.clone(), &response(200, &[("X-FOO ", "1")])), Ok(StepCompletion::Normal(Some(_)))));
    assert_eq!(
        validation_message(check(v, &response(200, &[("x-bar", "1")]))),
        "response headers did not include \"  X-Foo \""
    );
}

#[test]
fn header_equals_needs_some_header_with_that_value() {
    let pipe = response(200, &[("Content-Type", "text/html"), ("content-type", "text/plain")]);
    assert!(check(V::AssertHeaderEquals("content-type".into(), "text/html".into()), &pipe).is_ok());
    assert!(check(V::AssertHeaderEquals(" CONTENT-TYPE".into(), "text/plain".into()), &pipe).is_ok());
    assert_eq!(
        validation_message(check(V::AssertHeaderEquals("content-type".into(), "text/xml".into()), &pipe)),
        "response headers did not include \"content-type\""
    );
    assert!(check(V::AssertHeaderEquals("missing".into(), "x".into()), &pipe).is_err());
}

#[test]
fn status_code_messages() {
    let pipe = response(404, &[]);
    assert_eq!(validation_message(check(V::AssertStatusCode(200), &pipe)), "status code not equal to 200");
    assert_eq!(
        validation_message(check(V::AssertStatusCodeInRange(200, 299), &pipe)),
        "status code not in range [200, 299]"
    );
    assert!(check(V::AssertStatusCodeInRange(400, 404), &pipe).is_ok());
    assert!(check(V::AssertStatusCode(404), &pipe).is_ok());
}

#[test]
fn passing_assertion_keeps_the_response_in_the_pipe() {
    match check(V::AssertStatusCode(200), &response(200, &[])) {
        Ok(StepCompletion::Normal(p)) => assert_eq!(status_of(&p), Some(200)),
        other => panic!("unexpected {:?}", other),
    }
}

#[test]
fn warn_unless_turns_failures_into_warnings() {
    let pipe = response(404, &[]);
    let pairs = vec![
        (V::AssertStatusCode(200), V::WarnUnlessStatusCode(200)),
        (V::AssertStatusCodeInRange(200, 299), V::WarnUnlessStatusCodeInRange(200, 299)),
        (V::AssertHeaderExists("x".into()), V::WarnUnlessHeaderExists("x".into())),
        (V::AssertHeaderEquals("x".into(), "y".into()), V::WarnUnlessHeaderEquals("x".into(), "y".into())),
    ];
    for (assert_v, warn_v) in pairs {
        let message = validation_message(check(assert_v, &pipe));
        match check(warn_v, &pipe) {
            Ok(StepCompletion::WithWarnings(p, ws)) => {
                assert_eq!(ws, vec![message]);
                assert_eq!(status_of(&p), Some(404));
            }
            other => panic!("unexpected {:?}", other),
        }
    }
    assert!(matches!(check(V::WarnUnlessStatusCode(404), &pipe), Ok(StepCompletion::Normal(Some(_)))));
}

#[test]
fn validators_need_a_response() {
    let h = ValidatorHandler::new();
    assert!(matches!(h.step(None, None, &V::AssertStatusCode(200)), Err(StepError::InvalidActionInContext)));
    assert!(matches!(h.step(None, None, &V::ScriptFunction("f".into())), Err(StepError::InvalidActionInContext)));
    assert!(matches!(
        h.step(Some(&response(200, &[])), None, &V::ScriptFunction("f".into())),
        Err(StepError::ScriptNotInstantiated)
    ));
}

#[test]
fn validators_are_pure() {
    let pipe = response(418, &[("a", "b")]);
    for v in [V::AssertStatusCode(200), V::WarnUnlessHeaderExists("a".into()), V::AssertHeaderExists("c".into())] {
        let a = format!("{:?}", check(v.clone(), &pipe));
        let b = format!("{:?}", check(v, &pipe));
        assert_eq!(a, b);
    }
}

fn combine(c: Combinator, pipe: &PipeContents) -> Result<StepCompletion, StepError> {
    CombinatorHandler::new().step(Some(pipe), None, &c)
}

#[test]
fn all_of_gathers_warnings_and_stops_at_first_failure() {
    let pipe = response(200, &[]);
    match combine(Combinator::AllOf(vec![V::AssertStatusCode(200), V::WarnUnlessStatusCode(201), V::WarnUnlessStatusCode(202)]), &pipe) {
        Ok(StepCompletion::WithWarnings(None, ws)) => {
            assert_eq!(ws, vec!["status code not equal to 201", "status code not equal to 202"])
        }
        other => panic!("unexpected {:?}", other),
    }
    assert!(matches!(combine(Combinator::AllOf(vec![]), &pipe), Ok(StepCompletion::Normal(None))));
    assert_eq!(
        validation_message(combine(Combinator::AllOf(vec![V::AssertStatusCode(500), V::AssertStatusCode(501)]), &pipe)),
        "status code not equal to 500"
    );
}

#[test]
fn any_of_returns_first_success() {
    let pipe = response(200, &[]);
    assert!(matches!(
        combine(Combinator::AnyOf(vec![V::AssertStatusCode(500), V::AssertStatusCodeInRange(200, 299)]), &pipe),
        Ok(StepCompletion::Normal(Some(_)))
    ));
    assert_eq!(
        validation_message(combine(Combinator::AnyOf(vec![V::AssertStatusCode(500)]), &pipe)),
        "no validators in combinator succeeded"
    );
    assert!(combine(Combinator::AnyOf(vec![]), &pipe).is_err());
}

#[test]
fn none_of_inverts_any_of() {
    let pipe = response(200, &[]);
    assert!(matches!(
        combine(Combinator::NoneOf(vec![V::AssertStatusCode(200)]), &pipe),
        Err(StepError::ValidationSucceededUnexpectedly)
    ));
    assert!(matches!(
        combine(Combinator::NoneOf(vec![V::AssertStatusCode(500), V::AssertHeaderExists("x".into())]), &pipe),
        Ok(StepCompletion::Normal(None))
    ));
    assert!(matches!(combine(Combinator::NoneOf(vec![]), &pipe), Ok(StepCompletion::Normal(None))));
}
