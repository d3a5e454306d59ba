use seatrial::config_duration::ConfigDuration;
use seatrial::grunt::{Grunt, GruntSpec};
use seatrial::persona::PersonaSpec;
use seatrial::pipeline::action::{ControlFlow, PipelineAction};
use seatrial::situation::{SituationParseErrKind, SituationSpec, SituationSpecContents};

fn spec(base_name: Option<&str>, count: Option<usize>) -> GruntSpec {
    GruntSpec {
        base_name: base_name.map(|b| b.into()),
        persona: PersonaSpec {
            headers: None,
            sequence: vec![],
            timeout: ConfigDuration::Seconds(30),
        },
        count,
    }
}

#[test]
fn test_formatted_name() {
    let spec = GruntSpec {
        base_name: Some("Jimbo Gruntseph".into()),
        persona: PersonaSpec {
            headers: None,
            sequence: vec![],
            timeout: ConfigDuration::Seconds(30),
        },
        count: None,
    };

    assert_eq!("Jimbo Gruntseph 1", spec.formatted_name(1));
}

#[test]
fn test_formatted_name_no_base() {
    let spec = GruntSpec {
        base_name: None,
        persona: PersonaSpec {
            headers: None,
            sequence: vec![],
            timeout: ConfigDuration::Seconds(30),
        },
        count: None,
    };

    assert_eq!("Grunt<taking 0 actions> 1", spec.formatted_name(1));
}

#[test]
fn test_real_count() {
    let spec = GruntSpec {
        base_name: None,
        persona: PersonaSpec {
            headers: None,
            sequence: vec![],
            timeout: ConfigDuration::Seconds(30),
        },
        count: None,
    };

    assert_eq!(1, spec.real_count());
}

#[test]
fn formatted_name_counts_actions() {
    let mut s = spec(None, None);
    s.persona.sequence = vec![
        PipelineAction::ControlFlow(ControlFlow::GoTo { index: 0, max_times: None }),
        PipelineAction::ScriptFunction("f".into()),
    ];
    assert_eq!("Grunt<taking 2 actions> 17", s.formatted_name(17));
}

#[test]
fn grunts_expand_with_multiplier() {
    let grunts = Grunt::from_spec_with_multiplier(spec(Some("G"), Some(2)), 3).unwrap();
    let names: Vec<String> = grunts.iter().map(|g| g.name.clone()).collect();
    assert_eq!(names, vec!["G 0", "G 1", "G 2", "G 3", "G 4", "G 5"]);
    assert_eq!(grunts[0].persona.timeout, ConfigDuration::Seconds(30));
    assert!(grunts.iter().all(|g| std::rc::Rc::ptr_eq(&g.persona, &grunts[0].persona)));
}

#[test]
fn zero_grunts_is_a_semantics_error() {
    match Grunt::from_spec_with_multiplier(spec(Some("G"), Some(0)), 3) {
        Err(e) => {
            assert_eq!(e.message(), "if provided, grunt count must be >=1");
            match e.kind {
                SituationParseErrKind::Semantics { location, .. } => assert_eq!(location, "unknown"),
                other => panic!("unexpected kind {:?}", other),
            }
        }
        Ok(g) => panic!("expected an error, got {} grunts", g.len()),
    }
}

#[test]
fn overflowing_grunt_count_is_refused() {
    match Grunt::from_spec_with_multiplier(spec(Some("G"), Some(usize::MAX)), 2) {
        Err(e) => assert_eq!(e.message(), "grunt count times multiplier is too large"),
        Ok(_) => panic!("expected an error"),
    }
}

#[test]
fn situation_collects_grunts_in_order() {
    let spec = SituationSpec {
        source: "/tmp/situation.ron".into(),
        contents: SituationSpecContents {
            lua_file: Some("script.lua".into()),
            grunts: vec![spec(Some("A"), None), spec(Some("B"), Some(2))],
        },
    };
    let s = seatrial::situation::Situation::from_spec(spec, "http://localhost:8080/".into(), 1).unwrap();
    let names: Vec<String> = s.grunts.iter().map(|g| g.name.clone()).collect();
    assert_eq!(names, vec!["A 0", "B 0", "B 1"]);
    assert_eq!(s.lua_file.as_deref(), Some("script.lua"));
    assert_eq!(s.base_url, "http://localhost:8080/");
}
