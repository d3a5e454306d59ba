use vstd::prelude::*;

use std::rc::Rc;

use crate::persona::{persona_of, Persona, PersonaSpec};
use crate::situation::{SituationParseErr, SituationParseErrKind};
use crate::text::{concat3, decimal, decimal_string};

verus! {

/// One synthetic user: a display name and the persona it runs, shared with the other grunts
/// of its kind.
#[derive(Clone, Debug)]
pub struct Grunt {
    pub name: String,
    pub persona: Rc<Persona>,
}

/// A configured kind of grunt: an optional base name, its persona, and how many to run
/// (one when not given).
#[derive(Clone, Debug)]
pub struct GruntSpec {
    pub base_name: Option<String>,
    pub persona: PersonaSpec,
    pub count: Option<usize>,
}

pub const GRUNT_COUNT_MSG: &'static str = "if provided, grunt count must be >=1";
pub const GRUNT_COUNT_TOO_LARGE_MSG: &'static str = "grunt count times multiplier is too large";
pub const UNKNOWN_LOCATION: &'static str = "unknown";

impl GruntSpec {
    pub open spec fn spec_real_count(&self) -> nat {
        match self.count {
            Some(c) => c as nat,
            None => 1,
        }
    }

    /// The name grunts of this kind share: the base name, or one that tells the length of
    /// the persona's sequence.
    pub open spec fn spec_base(&self) -> Seq<char> {
        match self.base_name {
            Some(b) => b@,
            None => "Grunt<taking "@ + decimal(self.persona.sequence@.len()) + " actions>"@,
        }
    }

    pub open spec fn spec_formatted_name(&self, uniqueness: nat) -> Seq<char> {
        self.spec_base() + " "@ + decimal(uniqueness)
    }

    /// The name of the grunt of this kind numbered `uniqueness`.
    pub fn formatted_name(&self, uniqueness: usize) -> (r: String)
        ensures
            r@ == self.spec_formatted_name(uniqueness as nat),
    {
        let base = match &self.base_name {
            Some(b) => b.clone(),
            None => concat3("Grunt<taking ", decimal_string(self.persona.sequence.len() as u64).as_str(), " actions>"),
        };
        concat3(base.as_str(), " ", decimal_string(uniqueness as u64).as_str())
    }

    /// How many grunts of this kind run: the count, or one when it is not given.
    pub fn real_count(&self) -> (r: usize)
        ensures
            r as nat == self.spec_real_count(),
    {
        match self.count {
            Some(c) => c,
            None => 1,
        }
    }
}

fn semantics_error(message: &str) -> (r: SituationParseErr)
    ensures
        r.is_semantics(message@),
{
    SituationParseErr {
        kind: SituationParseErrKind::Semantics {
            message: String::from_str(message),
            location: String::from_str(UNKNOWN_LOCATION),
        },
    }
}

impl Grunt {
    /// The grunts a spec expands to: its count times the multiplier, numbered from zero, each
    /// running the persona the spec describes. None is an error, and so is a number that does
    /// not fit in `usize`.
    pub fn from_spec_with_multiplier(spec: GruntSpec, multiplier: usize) -> (r: Result<Vec<Grunt>, SituationParseErr>)
        ensures
            spec.spec_real_count() * multiplier > usize::MAX
                ==> (r matches Err(e) && e.is_semantics(GRUNT_COUNT_TOO_LARGE_MSG@)),
            spec.spec_real_count() * multiplier == 0
                ==> (r matches Err(e) && e.is_semantics(GRUNT_COUNT_MSG@)),
            0 < spec.spec_real_count() * multiplier <= usize::MAX ==> (r matches Ok(v)
                && v@.len() == spec.spec_real_count() * multiplier
                && forall|i: int| 0 <= i < v@.len() ==> (#[trigger] v@[i]).name@ == spec.spec_formatted_name(i as nat)
                    && persona_of(*v@[i].persona, spec.persona)),
    {
        let num_grunts = match spec.real_count().checked_mul(multiplier) {
            Some(n) => n,
            None => { return Err(semantics_error(GRUNT_COUNT_TOO_LARGE_MSG)); },
        };
        if num_grunts < 1 {
            return Err(semantics_error(GRUNT_COUNT_MSG));
        }
        let mut names: Vec<String> = Vec::new();
        let mut slot: usize = 0;
        while slot < num_grunts
            invariant
                slot <= num_grunts,
                names@.len() == slot,
                forall|i: int| 0 <= i < slot ==> (#[trigger] names@[i])@ == spec.spec_formatted_name(i as nat),
            decreases num_grunts - slot,
        {
            names.push(spec.formatted_name(slot));
            slot = slot + 1;
        }
        let ghost described = spec.persona;
        let persona = Rc::new(Persona::from_spec(spec.persona));
        let mut grunts: Vec<Grunt> = Vec::new();
        let mut i: usize = 0;
        while i < names.len()
            invariant
                i <= names.len(),
                persona_of(*persona, described),
                grunts@.len() == i,
                forall|j: int| 0 <= j < i ==> (#[trigger] grunts@[j]).name@ == names@[j]@
                    && persona_of(*grunts@[j].persona, described),
            decreases names.len() - i,
        {
            grunts.push(Grunt { name: names[i].clone(), persona: Rc::clone(&persona) });
            i = i + 1;
        }
        Ok(grunts)
    }
}

} // verus!
