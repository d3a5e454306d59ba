use vstd::prelude::*;

use crate::grunt::{Grunt, GruntSpec};

verus! {

/// A situation ready to run: the base URL, the user script's path, and its grunts.
pub struct Situation {
    pub base_url: String,
    pub lua_file: Option<String>,
    pub grunts: Vec<Grunt>,
}

/// A situation as read from a file: the file's path and what it holds.
#[derive(Clone, Debug)]
pub struct SituationSpec {
    pub source: String,
    pub contents: SituationSpecContents,
}

/// What a situation file holds: the user script's path and the kinds of grunts.
#[derive(Clone, Debug)]
pub struct SituationSpecContents {
    pub lua_file: Option<String>,
    pub grunts: Vec<GruntSpec>,
}

/// Why a situation could not be read or built.
#[derive(Debug)]
pub struct SituationParseErr {
    pub kind: SituationParseErrKind,
}

#[derive(Debug)]
pub enum SituationParseErrKind {
    /// A path that is not valid Unicode.
    Inspecific(String),
    /// The file could not be read.
    IO(String),
    /// The file's contents could not be parsed.
    Parsing(String),
    /// The contents do not make a valid situation.
    Semantics { message: String, location: String },
}

impl SituationParseErr {
    /// A semantic error with this message, its location not known.
    pub open spec fn is_semantics(&self, msg: Seq<char>) -> bool {
        self.kind matches SituationParseErrKind::Semantics { message: m, location: l }
            && m@ == msg && l@ == "unknown"@
    }

    pub open spec fn spec_message(&self) -> Seq<char> {
        match &self.kind {
            SituationParseErrKind::Inspecific(m) => m@,
            SituationParseErrKind::IO(m) => m@,
            SituationParseErrKind::Parsing(m) => m@,
            SituationParseErrKind::Semantics { message, .. } => message@,
        }
    }

    /// The error's message.
    pub fn message(&self) -> (r: String)
        ensures
            r@ == self.spec_message(),
    {
        match &self.kind {
            SituationParseErrKind::Inspecific(m) => m.clone(),
            SituationParseErrKind::IO(m) => m.clone(),
            SituationParseErrKind::Parsing(m) => m.clone(),
            SituationParseErrKind::Semantics { message, .. } => message.clone(),
        }
    }
}

impl Situation {
    /// The situation a spec describes: the grunts of each kind in order, each kind expanded
    /// by the multiplier; the first kind that cannot be expanded is the error.
    pub fn from_spec(spec: SituationSpec, base_url: String, grunt_multiplier: usize) -> (r: Result<Situation, SituationParseErr>)
        ensures
            r is Ok <==> forall|i: int| 0 <= i < spec.contents.grunts@.len()
                ==> 0 < #[trigger] spec.contents.grunts@[i].spec_real_count() * grunt_multiplier <= usize::MAX,
            r matches Ok(s) ==> s.lua_file == spec.contents.lua_file && s.base_url == base_url,
    {
        let ghost all = spec.contents.grunts@;
        let mut remaining = spec.contents.grunts;
        let n = remaining.len();
        let mut grunts: Vec<Grunt> = Vec::new();
        let mut i: usize = 0;
        while remaining.len() > 0
            invariant
                i + remaining@.len() == all.len(),
                all.len() == n,
                all == spec.contents.grunts@,
                remaining@ == all.subrange(i as int, all.len() as int),
                forall|j: int| 0 <= j < i
                    ==> 0 < #[trigger] all[j].spec_real_count() * grunt_multiplier <= usize::MAX,
            decreases remaining@.len(),
        {
            let g = remaining.remove(0);
            assert(g == all[i as int]);
            let mut more = match Grunt::from_spec_with_multiplier(g, grunt_multiplier) {
                Ok(v) => v,
                Err(e) => {
                    assert(!(0 < all[i as int].spec_real_count() * grunt_multiplier <= usize::MAX));
                    return Err(e);
                },
            };
            grunts.append(&mut more);
            i = i + 1;
            assert(remaining@ =~= all.subrange(i as int, all.len() as int));
        }
        Ok(Situation { base_url, lua_file: spec.contents.lua_file, grunts })
    }
}

} // verus!
