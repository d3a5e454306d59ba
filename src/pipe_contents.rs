use vstd::prelude::*;

use std::rc::Rc;

verus! {

/// The typed value carried from one pipeline step to the next.
#[derive(Clone, Debug)]
pub enum PipeContents {
    /// A response as received: header names are kept as the server spelled them.
    HttpResponse {
        body: Vec<u8>,
        content_type: String,
        headers: Vec<(String, String)>,
        status_code: u16,
    },
    /// A handle to a value held in the script interpreter's registry.
    ScriptRef(Rc<rlua::RegistryKey>),
}

/// The mathematical value of a pipe: strings as character sequences.
pub ghost enum PipeView {
    HttpResponse {
        body: Seq<u8>,
        content_type: Seq<char>,
        headers: Seq<(Seq<char>, Seq<char>)>,
        status_code: u16,
    },
    ScriptRef(Rc<rlua::RegistryKey>),
}

pub open spec fn header_pairs_view(headers: Seq<(String, String)>) -> Seq<(Seq<char>, Seq<char>)> {
    headers.map_values(|p: (String, String)| (p.0@, p.1@))
}

impl View for PipeContents {
    type V = PipeView;

    open spec fn view(&self) -> PipeView {
        match self {
            PipeContents::HttpResponse { body, content_type, headers, status_code } =>
                PipeView::HttpResponse {
                    body: body@,
                    content_type: content_type@,
                    headers: header_pairs_view(headers@),
                    status_code: *status_code,
                },
            PipeContents::ScriptRef(k) => PipeView::ScriptRef(*k),
        }
    }
}

pub open spec fn opt_pipe_view(p: Option<PipeContents>) -> Option<PipeView> {
    match p {
        Some(c) => Some(c@),
        None => None,
    }
}

pub(crate) fn copy_headers(headers: &Vec<(String, String)>) -> (r: Vec<(String, String)>)
    ensures
        header_pairs_view(r@) == header_pairs_view(headers@),
{
    let mut r: Vec<(String, String)> = Vec::new();
    let mut i: usize = 0;
    while i < headers.len()
        invariant
            i <= headers.len(),
            r@.len() == i,
            forall|j: int| 0 <= j < i ==> (#[trigger] r@[j]).0@ == headers@[j].0@ && r@[j].1@ == headers@[j].1@,
        decreases headers.len() - i,
    {
        let k = headers[i].0.clone();
        let v = headers[i].1.clone();
        r.push((k, v));
        i = i + 1;
    }
    assert(header_pairs_view(r@) =~= header_pairs_view(headers@));
    r
}

pub(crate) fn copy_bytes(b: &Vec<u8>) -> (r: Vec<u8>)
    ensures
        r@ == b@,
{
    let mut r: Vec<u8> = Vec::new();
    let mut i: usize = 0;
    while i < b.len()
        invariant
            i <= b.len(),
            r@ =~= b@.subrange(0, i as int),
        decreases b.len() - i,
    {
        r.push(b[i]);
        i = i + 1;
    }
    assert(r@ =~= b@);
    r
}

impl PipeContents {
    /// A copy of these contents with the same view.
    pub fn duplicate(&self) -> (r: PipeContents)
        ensures
            r@ == self@,
    {
        match self {
            PipeContents::HttpResponse { body, content_type, headers, status_code } =>
                PipeContents::HttpResponse {
                    body: copy_bytes(body),
                    content_type: content_type.clone(),
                    headers: copy_headers(headers),
                    status_code: *status_code,
                },
            PipeContents::ScriptRef(k) => PipeContents::ScriptRef(Rc::clone(k)),
        }
    }
}

} // verus!
