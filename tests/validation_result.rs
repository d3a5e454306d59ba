use seatrial::lua::validation_result::ValidationResult;
use seatrial::lua::{user_script_loader, HttpResponseTable, LuaForPipeline, ScriptError, ScriptInput};
use seatrial::pipe_contents::PipeContents;

fn eval(source: &str) -> Result<ValidationResult, ScriptError> {
    LuaForPipeline::with_stdlib_only()
        .unwrap()
        .eval_validation_result(source)
}

#[test]
fn test_seatrial_stdlib_validationresult_ok() {
    assert_eq!(eval("ValidationResult.Ok()").unwrap(), ValidationResult::Okay);
}

#[test]
fn test_seatrial_stdlib_validationresult_ok_with_warnings() {
    assert_eq!(
        eval("ValidationResult.OkWithWarnings(\"yo, this is a test!\")").unwrap(),
        ValidationResult::OkWithWarnings(vec!["yo, this is a test!".into()]),
    );
}

#[test]
fn test_seatrial_stdlib_validationresult_ok_with_warnings_multi() {
    assert_eq!(
        eval("ValidationResult.OkWithWarnings(\"yo, this is a test!\", \"this is also a test\")")
            .unwrap(),
        ValidationResult::OkWithWarnings(vec![
            "yo, this is a test!".into(),
            "this is also a test".into()
        ]),
    );
}

#[test]
fn test_seatrial_stdlib_validationresult_ok_with_warnings_req_argument() {
    match eval("ValidationResult.OkWithWarnings()") {
        Ok(result) => panic!("expected to get a RuntimeError, got {:?}", result),
        Err(ScriptError::Runtime(msg)) => {
            assert_eq!(msg, "expected at least one warning string, got none");
        }
        Err(error) => panic!("expected to get a RuntimeError, got {:?}", error),
    }
}

#[test]
fn validationresult_err_round_trips() {
    assert_eq!(
        eval("ValidationResult.Err(\"boom\")").unwrap(),
        ValidationResult::Error("boom".into()),
    );
}

#[test]
fn validationresult_bad_tables_are_refused() {
    let cases = [
        ("function() end", "only tables (generally constructed by seatrial itself) can become ValidationResults"),
        ("42", "only tables (generally constructed by seatrial itself) can become ValidationResults"),
        ("{}", "expected an integer at table key _validation_result_code"),
        ("{ _validation_result_code = 7 }", "expected an in-bounds integer (1-3) at table key _validation_result_code"),
        ("{ _validation_result_code = 2 }", "expected a table at table key _validation_result_warnings"),
        ("{ _validation_result_code = 2, _validation_result_warnings = { {} } }", "expected only strings at table key _validation_result_warnings"),
        ("{ _validation_result_code = 3 }", "expected a string at table key _validation_result_error"),
    ];
    for (source, expected) in cases {
        match eval(source) {
            Err(ScriptError::Runtime(msg)) => assert_eq!(msg, expected, "for {}", source),
            other => panic!("for {}: expected a runtime error, got {:?}", source, other),
        }
    }
}

#[test]
fn lua_syntax_errors_are_interpreter_errors() {
    assert!(matches!(eval("ValidationResult.Ok("), Err(ScriptError::Interpreter(_))));
}

#[test]
fn native_results_round_trip_through_script_tables() {
    let bridge = LuaForPipeline::with_stdlib_only().unwrap();
    for v in [
        ValidationResult::Okay,
        ValidationResult::OkWithWarnings(vec!["a".into(), "b".into()]),
        ValidationResult::Error("e".into()),
    ] {
        let key = v.to_lua(&bridge).unwrap();
        assert_eq!(bridge.validation_result_at(&key).unwrap(), v);
    }
}

#[test]
fn encoding_empty_warnings_is_refused_on_decoding() {
    let bridge = LuaForPipeline::with_stdlib_only().unwrap();
    let key = ValidationResult::OkWithWarnings(vec![]).to_lua(&bridge).unwrap();
    match bridge.validation_result_at(&key) {
        Err(ScriptError::Runtime(msg)) => assert_eq!(msg, "expected at least one warning string, got none"),
        other => panic!("expected a runtime error, got {:?}", other),
    }
}

#[test]
fn encoded_fields_are_the_table_layout() {
    assert_eq!(ValidationResult::Okay.encoded_fields(), (1, None, None));
    assert_eq!(
        ValidationResult::OkWithWarnings(vec!["w".into()]).encoded_fields(),
        (2, Some(vec!["w".to_string()]), None)
    );
    assert_eq!(ValidationResult::Error("m".into()).encoded_fields(), (3, None, Some("m".to_string())));
}

#[test]
fn result_tables_have_exactly_their_fields() {
    assert_eq!(
        ValidationResult::Error("m".into()).fields(),
        vec![("_validation_result_code", ScriptInput::Integer(3)), ("_validation_result_error", ScriptInput::Str("m".into()))]
    );
    assert_eq!(ValidationResult::Okay.fields(), vec![("_validation_result_code", ScriptInput::Integer(1))]);
}

#[test]
fn response_tables_have_body_string_only_for_utf8() {
    let headers = vec![("X-A".to_string(), "1".to_string())];
    let t = HttpResponseTable::from_response(200, &headers, &"text/plain".to_string(), &vec![0xff, 0xfe]);
    let keys: Vec<&str> = t.fields().iter().map(|f| f.0).collect();
    assert_eq!(keys, vec!["status_code", "headers", "content_type", "body"]);
    let t = HttpResponseTable::from_response(200, &headers, &"text/plain".to_string(), &b"hi".to_vec());
    let fields = t.fields();
    assert_eq!(fields.len(), 5);
    assert_eq!(fields[4], ("body_string", ScriptInput::Str("hi".into())));
    assert_eq!(fields[1], ("headers", ScriptInput::Pairs(headers)));
}

#[test]
fn script_handles_pass_through_to_lua_unchanged() {
    let bridge = LuaForPipeline::with_stdlib_only().unwrap();
    let key = ValidationResult::Okay.to_lua(&bridge).unwrap();
    let again = PipeContents::ScriptRef(key.clone()).to_lua(&bridge).unwrap();
    assert!(std::rc::Rc::ptr_eq(&key, &again));
}

#[test]
fn calling_without_a_user_script_is_a_runtime_error() {
    let bridge = LuaForPipeline::with_stdlib_only().unwrap();
    assert!(matches!(bridge.run_user_script_function("f", None), Err(ScriptError::Runtime(_))));
}

#[test]
fn loader_chunk_requires_the_module() {
    assert_eq!(
        user_script_loader("/d/?.lua", "script"),
        "package.path = package.path .. \";/d/?.lua\"; _user_script = require('script')"
    );
}
