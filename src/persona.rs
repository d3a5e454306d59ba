use vstd::prelude::*;

use crate::config_duration::ConfigDuration;
use crate::pipeline::action::{ConfigActionMap, PipelineAction};

verus! {

/// A program template for grunts, fixed for a run: the default request timeout, the default
/// headers, and the action sequence.
#[derive(Clone, Debug)]
pub struct Persona {
    pub timeout: ConfigDuration,
    pub headers: ConfigActionMap,
    pub sequence: Vec<PipelineAction>,
}

/// A persona as configured: headers may be left out.
#[derive(Clone, Debug)]
pub struct PersonaSpec {
    pub timeout: ConfigDuration,
    pub headers: Option<ConfigActionMap>,
    pub sequence: Vec<PipelineAction>,
}

/// `p` is the persona `s` describes: the same timeout and sequence, and the same headers
/// (an empty map when absent).
pub open spec fn persona_of(p: Persona, s: PersonaSpec) -> bool {
    &&& p.timeout == s.timeout
    &&& p.sequence == s.sequence
    &&& p.headers@ == match s.headers { Some(h) => h@, None => Seq::empty() }
}

impl Persona {
    /// The persona a configured one describes: absent headers are an empty map.
    pub fn from_spec(spec: PersonaSpec) -> (r: Persona)
        ensures
            persona_of(r, spec),
    {
        let headers = match spec.headers {
            Some(h) => h,
            None => Vec::new(),
        };
        Persona { timeout: spec.timeout, headers, sequence: spec.sequence }
    }
}

} // verus!
