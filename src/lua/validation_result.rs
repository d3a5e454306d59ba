use vstd::prelude::*;

use super::{fields_view, InputView, ScriptError, ScriptInput, ScriptValue, ValueView};

verus! {

pub const VALIDATION_RESULT_CODE_KEY: &'static str = "_validation_result_code";
pub const VALIDATION_RESULT_WARNINGS_KEY: &'static str = "_validation_result_warnings";
pub const VALIDATION_RESULT_ERROR_KEY: &'static str = "_validation_result_error";
pub const VALIDATION_RESULT_OK_CODE: i64 = 1;
pub const VALIDATION_RESULT_OK_WITH_WARNINGS_CODE: i64 = 2;
pub const VALIDATION_RESULT_ERROR_CODE: i64 = 3;

pub const MISSING_WARNING_MSG: &'static str = "expected at least one warning string, got none";
pub const NOT_A_TABLE_MSG: &'static str = "only tables (generally constructed by seatrial itself) can become ValidationResults";
pub const CODE_NOT_INTEGER_MSG: &'static str = "expected an integer at table key _validation_result_code";
pub const CODE_OUT_OF_RANGE_MSG: &'static str = "expected an in-bounds integer (1-3) at table key _validation_result_code";
pub const WARNINGS_NOT_TABLE_MSG: &'static str = "expected a table at table key _validation_result_warnings";
pub const WARNING_NOT_STRING_MSG: &'static str = "expected only strings at table key _validation_result_warnings";
pub const ERROR_NOT_STRING_MSG: &'static str = "expected a string at table key _validation_result_error";

/// The `ValidationResult` global of the seatrial standard library, in Lua: each constructor
/// returns a table tagged at `_validation_result_code`.
pub const STDLIB_SOURCE: &'static str = "ValidationResult = {
  Ok = function() return { _validation_result_code = 1 } end,
  OkWithWarnings = function(...) return { _validation_result_code = 2, _validation_result_warnings = { ... } } end,
  Err = function(message) return { _validation_result_code = 3, _validation_result_error = message } end,
}";

/// What a user validator function returns.
#[derive(Clone, Debug, PartialEq, Eq)]
pub enum ValidationResult {
    Okay,
    /// Success with at least one warning.
    OkWithWarnings(Vec<String>),
    Error(String),
}

pub ghost enum ValidationView {
    Okay,
    OkWithWarnings(Seq<Seq<char>>),
    Error(Seq<char>),
}

pub open spec fn strings_of(ws: Seq<String>) -> Seq<Seq<char>> {
    ws.map_values(|w: String| w@)
}

impl View for ValidationResult {
    type V = ValidationView;

    open spec fn view(&self) -> ValidationView {
        match self {
            ValidationResult::Okay => ValidationView::Okay,
            ValidationResult::OkWithWarnings(ws) => ValidationView::OkWithWarnings(strings_of(ws@)),
            ValidationResult::Error(m) => ValidationView::Error(m@),
        }
    }
}

impl ValidationResult {
    /// Warnings, when present, are not empty.
    pub open spec fn wf(&self) -> bool {
        self@ matches ValidationView::OkWithWarnings(ws) ==> ws.len() > 0
    }
}

pub open spec fn view_wf(v: ValidationView) -> bool {
    v matches ValidationView::OkWithWarnings(ws) ==> ws.len() > 0
}

pub open spec fn values_view(ws: Seq<ScriptValue>) -> Seq<ValueView> {
    ws.map_values(|x: ScriptValue| x@)
}

pub open spec fn opt_values_view(ws: Option<&Vec<ScriptValue>>) -> Option<Seq<ValueView>> {
    match ws {
        Some(w) => Some(values_view(w@)),
        None => None,
    }
}

pub open spec fn is_str(v: ValueView) -> bool {
    v is Str
}

pub open spec fn str_content(v: ValueView) -> Seq<char> {
    match v {
        ValueView::Str(s) => s,
        _ => Seq::empty(),
    }
}

/// Decoding of a `ValidationResult` table from what was read of it: whether it is a table,
/// the tag, the warnings sequence (`None` when that field is not a table) and the error field.
/// `Err` holds the message of the runtime error raised.
pub open spec fn decode_view(is_table: bool, code: ValueView, warnings: Option<Seq<ValueView>>, error: ValueView) -> Result<ValidationView, Seq<char>> {
    if !is_table {
        Err(NOT_A_TABLE_MSG@)
    } else {
        match code {
            ValueView::Integer(c) => {
                if c == 1 {
                    Ok(ValidationView::Okay)
                } else if c == 2 {
                    match warnings {
                        None => Err(WARNINGS_NOT_TABLE_MSG@),
                        Some(ws) => {
                            if exists|i: int| 0 <= i < ws.len() && !is_str(#[trigger] ws[i]) {
                                Err(WARNING_NOT_STRING_MSG@)
                            } else if ws.len() == 0 {
                                Err(MISSING_WARNING_MSG@)
                            } else {
                                Ok(ValidationView::OkWithWarnings(ws.map_values(|w: ValueView| str_content(w))))
                            }
                        },
                    }
                } else if c == 3 {
                    match error {
                        ValueView::Str(m) => Ok(ValidationView::Error(m)),
                        _ => Err(ERROR_NOT_STRING_MSG@),
                    }
                } else {
                    Err(CODE_OUT_OF_RANGE_MSG@)
                }
            },
            _ => Err(CODE_NOT_INTEGER_MSG@),
        }
    }
}

pub open spec fn str_values(ws: Seq<Seq<char>>) -> Seq<ValueView> {
    ws.map_values(|w: Seq<char>| ValueView::Str(w))
}

/// What the encoding of a `ValidationResult` writes at the tag, warnings and error keys
/// (`Nil` where it writes nothing).
pub open spec fn encode_view(v: ValidationView) -> (ValueView, Option<Seq<ValueView>>, ValueView) {
    match v {
        ValidationView::Okay => (ValueView::Integer(1), None, ValueView::Nil),
        ValidationView::OkWithWarnings(ws) => (ValueView::Integer(2), Some(str_values(ws)), ValueView::Nil),
        ValidationView::Error(m) => (ValueView::Integer(3), None, ValueView::Str(m)),
    }
}

pub open spec fn decoded(r: Result<ValidationResult, ScriptError>, d: Result<ValidationView, Seq<char>>) -> bool {
    match d {
        Ok(v) => r matches Ok(x) && x@ == v,
        Err(m) => r matches Err(ScriptError::Runtime(s)) && s@ == m,
    }
}

impl ValidationResult {
    /// What this result's table holds at the tag key, the warnings key and the error key
    /// (`None` where nothing is written).
    pub fn encoded_fields(&self) -> (r: (i64, Option<Vec<String>>, Option<String>))
        ensures
            encode_view(self@).0 == ValueView::Integer(r.0),
            encode_view(self@).1 == match r.1 { Some(ws) => Some(str_values(strings_of(ws@))), None => None },
            encode_view(self@).2 == match r.2 { Some(m) => ValueView::Str(m@), None => ValueView::Nil },
            self@ matches ValidationView::OkWithWarnings(v) ==> (r.1 matches Some(ws) && strings_of(ws@) == v),
            self@ matches ValidationView::Error(m) ==> (r.2 matches Some(e) && e@ == m),
            !(self@ is OkWithWarnings) ==> r.1 is None,
            !(self@ is Error) ==> r.2 is None,
    {
        match self {
            ValidationResult::Okay => (VALIDATION_RESULT_OK_CODE, None, None),
            ValidationResult::OkWithWarnings(ws) => {
                let mut out: Vec<String> = Vec::new();
                let mut i: usize = 0;
                while i < ws.len()
                    invariant
                        i <= ws.len(),
                        out@.len() == i,
                        forall|j: int| 0 <= j < i ==> (#[trigger] out@[j])@ == ws@[j]@,
                    decreases ws.len() - i,
                {
                    out.push(ws[i].clone());
                    i = i + 1;
                }
                assert(strings_of(out@) =~= strings_of(ws@));
                (VALIDATION_RESULT_OK_WITH_WARNINGS_CODE, Some(out), None)
            },
            ValidationResult::Error(m) => (VALIDATION_RESULT_ERROR_CODE, None, Some(m.clone())),
        }
    }
}

/// The fields of a result's table: the tag, then the warnings or the error message.
pub open spec fn validation_fields_view(v: ValidationView) -> Seq<(Seq<char>, InputView)> {
    match v {
        ValidationView::Okay => seq![(VALIDATION_RESULT_CODE_KEY@, InputView::Integer(1))],
        ValidationView::OkWithWarnings(ws) => seq![
            (VALIDATION_RESULT_CODE_KEY@, InputView::Integer(2)),
            (VALIDATION_RESULT_WARNINGS_KEY@, InputView::Strings(ws)),
        ],
        ValidationView::Error(m) => seq![
            (VALIDATION_RESULT_CODE_KEY@, InputView::Integer(3)),
            (VALIDATION_RESULT_ERROR_KEY@, InputView::Str(m)),
        ],
    }
}

impl ValidationResult {
    /// The keys and values this result's table is written with.
    pub fn fields(&self) -> (r: Vec<(&'static str, ScriptInput)>)
        ensures
            fields_view(r@) == validation_fields_view(self@),
    {
        let (code, warnings, error) = self.encoded_fields();
        let mut r: Vec<(&'static str, ScriptInput)> = Vec::new();
        r.push((VALIDATION_RESULT_CODE_KEY, ScriptInput::Integer(code)));
        if let Some(ws) = warnings {
            r.push((VALIDATION_RESULT_WARNINGS_KEY, ScriptInput::Strings(ws)));
        }
        if let Some(m) = error {
            r.push((VALIDATION_RESULT_ERROR_KEY, ScriptInput::Str(m)));
        }
        assert(fields_view(r@) =~= validation_fields_view(self@));
        r
    }
}

fn runtime_error(msg: &str) -> (r: ScriptError)
    ensures
        r matches ScriptError::Runtime(s) && s@ == msg@,
{
    ScriptError::Runtime(String::from_str(msg))
}

/// Decodes a `ValidationResult` from what was read of its table.
pub fn decode_validation_result(is_table: bool, code: &ScriptValue, warnings: Option<&Vec<ScriptValue>>, error: &ScriptValue) -> (r: Result<ValidationResult, ScriptError>)
    ensures
        decoded(r, decode_view(is_table, code@, opt_values_view(warnings), error@)),
        r matches Ok(v) ==> v.wf(),
{
    let ghost wv = opt_values_view(warnings);
    if !is_table {
        return Err(runtime_error(NOT_A_TABLE_MSG));
    }
    match code {
        ScriptValue::Integer(c) => {
            if *c == VALIDATION_RESULT_OK_CODE {
                Ok(ValidationResult::Okay)
            } else if *c == VALIDATION_RESULT_OK_WITH_WARNINGS_CODE {
                match warnings {
                    None => Err(runtime_error(WARNINGS_NOT_TABLE_MSG)),
                    Some(ws) => {
                        let ghost wsv = values_view(ws@);
                        let mut out: Vec<String> = Vec::new();
                        let mut i: usize = 0;
                        while i < ws.len()
                            invariant
                                i <= ws.len(),
                                wsv == values_view(ws@),
                                wv == Some(wsv),
                                wv == opt_values_view(warnings),
                                is_table,
                                code@ == ValueView::Integer(2),
                                out@.len() == i,
                                forall|j: int| 0 <= j < i ==> is_str(#[trigger] wsv[j]),
                                forall|j: int| 0 <= j < i ==> (#[trigger] out@[j])@ == str_content(wsv[j]),
                            decreases ws.len() - i,
                        {
                            match &ws[i] {
                                ScriptValue::Str(s) => {
                                    out.push(s.clone());
                                },
                                _ => {
                                    assert(wsv[i as int] == ws@[i as int]@);
                                    assert(!is_str(wsv[i as int]));
                                    return Err(runtime_error(WARNING_NOT_STRING_MSG));
                                },
                            }
                            i = i + 1;
                        }
                        if out.len() == 0 {
                            return Err(runtime_error(MISSING_WARNING_MSG));
                        }
                        let r = ValidationResult::OkWithWarnings(out);
                        assert(strings_of(out@) =~= wsv.map_values(|w: ValueView| str_content(w)));
                        Ok(r)
                    },
                }
            } else if *c == VALIDATION_RESULT_ERROR_CODE {
                match error {
                    ScriptValue::Str(m) => Ok(ValidationResult::Error(m.clone())),
                    _ => Err(runtime_error(ERROR_NOT_STRING_MSG)),
                }
            } else {
                Err(runtime_error(CODE_OUT_OF_RANGE_MSG))
            }
        },
        _ => Err(runtime_error(CODE_NOT_INTEGER_MSG)),
    }
}

/// Decoding what the encoding of a well-formed `ValidationResult` writes gives that value
/// back; an `OkWithWarnings` table with an empty warnings list is refused with the message
/// that at least one warning was expected.
pub proof fn lemma_validation_result_round_trip(v: ValidationView)
    ensures
        view_wf(v) ==> decode_view(true, encode_view(v).0, encode_view(v).1, encode_view(v).2) == Ok::<ValidationView, Seq<char>>(v),
        decode_view(true, ValueView::Integer(2), Some(Seq::<ValueView>::empty()), ValueView::Nil) == Err::<ValidationView, Seq<char>>(MISSING_WARNING_MSG@),
{
    if let ValidationView::OkWithWarnings(ws) = v {
        let enc = str_values(ws);
        assert forall|i: int| 0 <= i < enc.len() implies is_str(#[trigger] enc[i]) by {}
        assert(enc.map_values(|w: ValueView| str_content(w)) =~= ws);
    }
}

} // verus!
