use vstd::prelude::*;

use crate::config_duration::ConfigDuration;
use crate::lua::LuaForPipeline;
use crate::pipe_contents::{PipeContents, PipeView};
use crate::pipeline::action::{reference_outcome, string_result_view, ConfigActionMap, Reference};
use crate::pipeline::step_handler::StepError;
use crate::validator::opt_ref_view;

verus! {

#[verifier::external_type_specification]
#[verifier::external_body]
pub struct ExParseError(url::ParseError);

/// An HTTP request action: the verb, the path joined against the base URL, and optional
/// header and query maps and timeout override.
#[derive(Clone, Debug, PartialEq, Eq)]
pub enum Action {
    Delete { url: String, headers: Option<ConfigActionMap>, params: Option<ConfigActionMap>, timeout: Option<ConfigDuration> },
    Get { url: String, headers: Option<ConfigActionMap>, params: Option<ConfigActionMap>, timeout: Option<ConfigDuration> },
    Head { url: String, headers: Option<ConfigActionMap>, params: Option<ConfigActionMap>, timeout: Option<ConfigDuration> },
    Post { url: String, headers: Option<ConfigActionMap>, params: Option<ConfigActionMap>, timeout: Option<ConfigDuration> },
    Put { url: String, headers: Option<ConfigActionMap>, params: Option<ConfigActionMap>, timeout: Option<ConfigDuration> },
}

/// An HTTP method.
#[derive(Clone, Copy, Debug, PartialEq, Eq)]
pub enum Verb {
    Delete,
    Get,
    Head,
    Post,
    Put,
}

impl Action {
    pub open spec fn spec_verb(&self) -> Verb {
        match self {
            Action::Delete { .. } => Verb::Delete,
            Action::Get { .. } => Verb::Get,
            Action::Head { .. } => Verb::Head,
            Action::Post { .. } => Verb::Post,
            Action::Put { .. } => Verb::Put,
        }
    }

    pub open spec fn spec_url(&self) -> String {
        match self {
            Action::Delete { url, .. } | Action::Get { url, .. } | Action::Head { url, .. }
            | Action::Post { url, .. } | Action::Put { url, .. } => *url,
        }
    }

    pub open spec fn spec_headers(&self) -> Option<ConfigActionMap> {
        match self {
            Action::Delete { headers, .. } | Action::Get { headers, .. } | Action::Head { headers, .. }
            | Action::Post { headers, .. } | Action::Put { headers, .. } => *headers,
        }
    }

    pub open spec fn spec_params(&self) -> Option<ConfigActionMap> {
        match self {
            Action::Delete { params, .. } | Action::Get { params, .. } | Action::Head { params, .. }
            | Action::Post { params, .. } | Action::Put { params, .. } => *params,
        }
    }

    pub open spec fn spec_timeout(&self) -> Option<ConfigDuration> {
        match self {
            Action::Delete { timeout, .. } | Action::Get { timeout, .. } | Action::Head { timeout, .. }
            | Action::Post { timeout, .. } | Action::Put { timeout, .. } => *timeout,
        }
    }

    pub fn verb(&self) -> (r: Verb)
        ensures
            r == self.spec_verb(),
    {
        match self {
            Action::Delete { .. } => Verb::Delete,
            Action::Get { .. } => Verb::Get,
            Action::Head { .. } => Verb::Head,
            Action::Post { .. } => Verb::Post,
            Action::Put { .. } => Verb::Put,
        }
    }

    /// The path, joined against the base URL when the request is made.
    pub fn url(&self) -> (r: &String)
        ensures
            *r == self.spec_url(),
    {
        match self {
            Action::Delete { url, .. } | Action::Get { url, .. } | Action::Head { url, .. }
            | Action::Post { url, .. } | Action::Put { url, .. } => url,
        }
    }

    pub fn headers(&self) -> (r: Option<&ConfigActionMap>)
        ensures
            r == match self.spec_headers() { Some(h) => Some(&h), None => None::<&ConfigActionMap> },
    {
        match self {
            Action::Delete { headers, .. } | Action::Get { headers, .. } | Action::Head { headers, .. }
            | Action::Post { headers, .. } | Action::Put { headers, .. } => headers.as_ref(),
        }
    }

    pub fn params(&self) -> (r: Option<&ConfigActionMap>)
        ensures
            r == match self.spec_params() { Some(p) => Some(&p), None => None::<&ConfigActionMap> },
    {
        match self {
            Action::Delete { params, .. } | Action::Get { params, .. } | Action::Head { params, .. }
            | Action::Post { params, .. } | Action::Put { params, .. } => params.as_ref(),
        }
    }

    /// The per-request timeout that overrides the persona's, if any.
    pub fn timeout(&self) -> (r: Option<&ConfigDuration>)
        ensures
            r == match self.spec_timeout() { Some(t) => Some(&t), None => None::<&ConfigDuration> },
    {
        match self {
            Action::Delete { timeout, .. } | Action::Get { timeout, .. } | Action::Head { timeout, .. }
            | Action::Post { timeout, .. } | Action::Put { timeout, .. } => timeout.as_ref(),
        }
    }
}

/// A request ready to be sent: the absolute URL, then the realised headers and query
/// parameters in the order they were written, and the timeout override.
#[derive(Clone, Debug, PartialEq, Eq)]
pub struct HttpRequest {
    pub verb: Verb,
    pub url: String,
    pub headers: Vec<(String, String)>,
    pub params: Vec<(String, String)>,
    pub timeout: Option<ConfigDuration>,
}

/// `r` realises each entry of the map in order (an absent map is empty): on success the
/// names are kept and each value is a result its reference can have; a failure is one that
/// some entry's reference can have.
pub open spec fn map_entries(base: Option<ConfigActionMap>) -> Seq<(String, Reference)> {
    match base {
        Some(b) => b@,
        None => Seq::empty(),
    }
}

pub open spec fn entry_fails(m: Seq<(String, Reference)>, i: int, has_script: bool, pipe: Option<PipeView>, e: StepError) -> bool {
    0 <= i < m.len() && reference_outcome(m[i].1, has_script, pipe, Err(e@))
}

pub open spec fn realized(base: Option<ConfigActionMap>, has_script: bool, pipe: Option<PipeView>, r: Result<Vec<(String, String)>, StepError>) -> bool {
    let m = map_entries(base);
    match r {
        Ok(v) => {
            &&& v@.len() == m.len()
            &&& forall|i: int| 0 <= i < m.len() ==> (#[trigger] v@[i]).0@ == m[i].0@
                    && reference_outcome(m[i].1, has_script, pipe, Ok(v@[i].1@))
        },
        Err(e) => exists|i: int| #[trigger] entry_fails(m, i, has_script, pipe, e),
    }
}

/// What parsing `base` as a URL and joining `path` to it gives, in string form; `None` when
/// either fails.
pub uninterp spec fn joined(base: Seq<char>, path: Seq<char>) -> Option<Seq<char>>;

/// Relies on `url::Url::parse`, `Url::join` and `From<Url> for String`: resolves a path against
/// a base URL, a function of the two strings alone.
#[verifier::external_body]
fn join_url(base: &str, path: &str) -> (r: Result<String, url::ParseError>)
    ensures
        r is Ok <==> joined(base@, path@) is Some,
        r matches Ok(s) ==> joined(base@, path@) == Some(s@),
{
    url::Url::parse(base).and_then(|b| b.join(path)).map(String::from)
}

/// The results preparing an HTTP action can have: `UrlParsing` exactly when the path does not
/// join the base URL; otherwise a request to the joined URL with the action's verb and
/// timeout and its headers and query parameters realised, or a failure that realising one of
/// them can have.
pub open spec fn prepared(base: Seq<char>, action: Action, has_script: bool, pipe: Option<PipeView>, r: Result<HttpRequest, StepError>) -> bool {
    match joined(base, action.spec_url()@) {
        None => r matches Err(e) && e is UrlParsing,
        Some(u) => match r {
            Ok(req) => {
                &&& req.url@ == u
                &&& req.verb == action.spec_verb()
                &&& req.timeout == action.spec_timeout()
                &&& realized(action.spec_headers(), has_script, pipe, Ok(req.headers))
                &&& realized(action.spec_params(), has_script, pipe, Ok(req.params))
            },
            Err(e) => !(e is UrlParsing) && (realized(action.spec_headers(), has_script, pipe, Err(e))
                || realized(action.spec_params(), has_script, pipe, Err(e))),
        },
    }
}

/// Prepares HTTP requests: the URL resolved, headers and query parameters realised.
#[derive(Clone, Copy, Debug)]
pub struct HttpHandler;

impl HttpHandler {
    pub fn new() -> HttpHandler {
        HttpHandler
    }

    /// Realises a header or query map against the pipe contents.
    pub fn build_request_hashmap(&self, pipe: Option<&PipeContents>, lua: Option<&LuaForPipeline>, base: Option<&ConfigActionMap>) -> (r: Result<Vec<(String, String)>, StepError>)
        ensures
            realized(match base { Some(b) => Some(*b), None => None }, lua is Some, opt_ref_view(pipe), r),
    {
        let mut out: Vec<(String, String)> = Vec::new();
        let b = match base {
            None => { return Ok(out); },
            Some(b) => b,
        };
        let ghost pv = opt_ref_view(pipe);
        let mut i: usize = 0;
        while i < b.len()
            invariant
                i <= b.len(),
                pv == opt_ref_view(pipe),
                base == Some(b),
                out@.len() == i,
                forall|j: int| 0 <= j < i ==> (#[trigger] out@[j]).0@ == b@[j].0@
                    && reference_outcome(b@[j].1, lua is Some, pv, Ok(out@[j].1@)),
            decreases b.len() - i,
        {
            let rv = b[i].1.try_into_string_given_pipe_data(lua, pipe);
            match rv {
                Ok(v) => {
                    out.push((b[i].0.clone(), v));
                },
                Err(e) => {
                    assert(entry_fails(b@, i as int, lua is Some, pv, e));
                    assert(map_entries(Some(*b)) == b@);
                    let r: Result<Vec<(String, String)>, StepError> = Err(e);
                    assert(realized(Some(*b), lua is Some, pv, r));
                    return r;
                },
            }
            i = i + 1;
        }
        Ok(out)
    }

    /// Prepares the request for an HTTP action: the path joined against the base URL (a
    /// failure is `UrlParsing`, before any reference is realised), then the headers, then the
    /// query parameters realised.
    pub fn prepare(&self, base_url: &str, pipe: Option<&PipeContents>, lua: Option<&LuaForPipeline>, action: &Action) -> (r: Result<HttpRequest, StepError>)
        ensures
            prepared(base_url@, *action, lua is Some, opt_ref_view(pipe), r),
    {
        let url = match join_url(base_url, action.url().as_str()) {
            Ok(u) => u,
            Err(e) => { return Err(StepError::UrlParsing(e)); },
        };
        let headers = match self.build_request_hashmap(pipe, lua, action.headers()) {
            Ok(h) => h,
            Err(e) => { return Err(e); },
        };
        let params = match self.build_request_hashmap(pipe, lua, action.params()) {
            Ok(p) => p,
            Err(e) => { return Err(e); },
        };
        let timeout = match action.timeout() {
            Some(t) => Some(*t),
            None => None,
        };
        Ok(HttpRequest { verb: action.verb(), url, headers, params, timeout })
    }
}

} // verus!
