use vstd::prelude::*;

use std::rc::Rc;

use crate::pipe_contents::{copy_bytes, copy_headers, header_pairs_view, PipeContents};
use crate::text::concat3;

pub mod validation_result;
use validation_result::{
    decode_validation_result, strings_of, ValidationResult, STDLIB_SOURCE, VALIDATION_RESULT_CODE_KEY,
    VALIDATION_RESULT_ERROR_KEY, VALIDATION_RESULT_WARNINGS_KEY,
};

verus! {

#[verifier::external_type_specification]
#[verifier::external_body]
pub struct ExLua(rlua::Lua);

#[verifier::external_type_specification]
#[verifier::external_body]
pub struct ExRegistryKey(rlua::RegistryKey);

#[verifier::external_type_specification]
#[verifier::external_body]
pub struct ExLuaError(rlua::Error);

/// An error raised while running or reading script values.
#[derive(Debug)]
pub enum ScriptError {
    /// The interpreter raised an error.
    Interpreter(rlua::Error),
    /// A script value did not have the shape that was asked of it.
    Runtime(String),
}

/// A script value as the engine reads it: scalars keep their content, every other kind of
/// value is only known to be complex.
#[derive(Clone, Debug, PartialEq, Eq)]
pub enum ScriptValue {
    Nil,
    Boolean(bool),
    Integer(i64),
    /// A floating-point number, in its natural string form.
    Number(String),
    Str(String),
    /// A string whose bytes are not valid UTF-8.
    InvalidUtf8Str,
    Table,
    /// A function, userdata, thread or error value.
    Complex,
}

pub ghost enum ValueView {
    Nil,
    Boolean(bool),
    Integer(i64),
    Number(Seq<char>),
    Str(Seq<char>),
    InvalidUtf8Str,
    Table,
    Complex,
}

impl View for ScriptValue {
    type V = ValueView;

    open spec fn view(&self) -> ValueView {
        match self {
            ScriptValue::Nil => ValueView::Nil,
            ScriptValue::Boolean(b) => ValueView::Boolean(*b),
            ScriptValue::Integer(i) => ValueView::Integer(*i),
            ScriptValue::Number(t) => ValueView::Number(t@),
            ScriptValue::Str(s) => ValueView::Str(s@),
            ScriptValue::InvalidUtf8Str => ValueView::InvalidUtf8Str,
            ScriptValue::Table => ValueView::Table,
            ScriptValue::Complex => ValueView::Complex,
        }
    }
}

/// A plain value to be written into a script table.
#[derive(Clone, Debug, PartialEq, Eq)]
pub enum ScriptInput {
    Integer(i64),
    Str(String),
    /// A sequence of the bytes, as integers.
    Bytes(Vec<u8>),
    /// A sequence of the strings.
    Strings(Vec<String>),
    /// A table from each name to its value.
    Pairs(Vec<(String, String)>),
}

pub ghost enum InputView {
    Integer(i64),
    Str(Seq<char>),
    Bytes(Seq<u8>),
    Strings(Seq<Seq<char>>),
    Pairs(Seq<(Seq<char>, Seq<char>)>),
}

impl View for ScriptInput {
    type V = InputView;

    open spec fn view(&self) -> InputView {
        match self {
            ScriptInput::Integer(i) => InputView::Integer(*i),
            ScriptInput::Str(s) => InputView::Str(s@),
            ScriptInput::Bytes(b) => InputView::Bytes(b@),
            ScriptInput::Strings(ws) => InputView::Strings(strings_of(ws@)),
            ScriptInput::Pairs(ps) => InputView::Pairs(header_pairs_view(ps@)),
        }
    }
}

/// The keys and values a table is written with, in order.
pub open spec fn fields_view(f: Seq<(&'static str, ScriptInput)>) -> Seq<(Seq<char>, InputView)> {
    f.map_values(|p: (&'static str, ScriptInput)| (p.0@, p.1@))
}

/// Relies on `rlua::Lua::new`: a fresh interpreter with the standard libraries but `debug`.
#[verifier::external_body]
fn new_interpreter() -> rlua::Lua {
    rlua::Lua::new()
}

/// Relies on `rlua::Lua::context`, `Context::load`, `Chunk::set_name` and `Chunk::exec`: runs a
/// named chunk, failing with the interpreter's error.
#[verifier::external_body]
fn exec_chunk(lua: &rlua::Lua, name: &str, source: &str) -> Result<(), rlua::Error> {
    lua.context(|ctx| ctx.load(source).set_name(name)?.exec())
}

/// Relies on `rlua::Context::load`, `Chunk::eval` and `Context::create_registry_value`:
/// evaluates a chunk (as an expression when it parses as one) and keeps its value.
#[verifier::external_body]
fn eval_chunk(lua: &rlua::Lua, source: &str) -> Result<rlua::RegistryKey, rlua::Error> {
    lua.context(|ctx| {
        let v = ctx.load(source).eval::<rlua::Value>()?;
        ctx.create_registry_value(v)
    })
}

/// Relies on `rlua::Context::globals`, `Table::get` and `Context::create_registry_value`:
/// keeps the value of a global (nil when unset).
#[verifier::external_body]
fn global_key(lua: &rlua::Lua, name: &str) -> Result<rlua::RegistryKey, rlua::Error> {
    lua.context(|ctx| ctx.create_registry_value(ctx.globals().get::<_, rlua::Value>(name)?))
}

/// Relies on `rlua::Context::registry_value`, `Table::get` with a string key and
/// `Context::create_registry_value`: keeps a table's field (nil when absent). Fails when the
/// registry value is not a table.
#[verifier::external_body]
fn field_key_by_name(lua: &rlua::Lua, table: &rlua::RegistryKey, name: &str) -> Result<rlua::RegistryKey, rlua::Error> {
    lua.context(|ctx| {
        let t = ctx.registry_value::<rlua::Table>(table)?;
        ctx.create_registry_value(t.get::<_, rlua::Value>(name)?)
    })
}

/// Relies on `rlua::Context::registry_value`, `Table::get` with an integer key and
/// `Context::create_registry_value`: keeps a table's element (nil when absent). Fails when the
/// registry value is not a table.
#[verifier::external_body]
fn field_key_by_index(lua: &rlua::Lua, table: &rlua::RegistryKey, index: i64) -> Result<rlua::RegistryKey, rlua::Error> {
    lua.context(|ctx| {
        let t = ctx.registry_value::<rlua::Table>(table)?;
        ctx.create_registry_value(t.get::<_, rlua::Value>(index)?)
    })
}

/// Relies on `rlua::Context::registry_value` and `Table::raw_len`: the border of a table's
/// sequence part. Fails when the registry value is not a table.
#[verifier::external_body]
fn sequence_len(lua: &rlua::Lua, table: &rlua::RegistryKey) -> Result<i64, rlua::Error> {
    lua.context(|ctx| Ok(ctx.registry_value::<rlua::Table>(table)?.raw_len()))
}

/// Relies on `rlua::Context::registry_value`, `rlua::String::to_str` and `f64`'s `to_string`:
/// reads a registry value as the kind its `rlua::Value` variant tells.
#[verifier::external_body]
fn value_of(lua: &rlua::Lua, key: &rlua::RegistryKey) -> Result<ScriptValue, rlua::Error> {
    lua.context(|ctx| {
        Ok(match ctx.registry_value::<rlua::Value>(key)? {
            rlua::Value::Nil => ScriptValue::Nil,
            rlua::Value::Boolean(b) => ScriptValue::Boolean(b),
            rlua::Value::Integer(i) => ScriptValue::Integer(i),
            rlua::Value::Number(n) => ScriptValue::Number(n.to_string()),
            rlua::Value::String(s) => s.to_str().map_or(ScriptValue::InvalidUtf8Str, |t| ScriptValue::Str(t.to_owned())),
            rlua::Value::Table(_) => ScriptValue::Table,
            rlua::Value::Function(_) | rlua::Value::Thread(_) | rlua::Value::UserData(_) => ScriptValue::Complex,
            rlua::Value::LightUserData(_) | rlua::Value::Error(_) => ScriptValue::Complex,
        })
    })
}

/// Relies on `rlua::Context::registry_value`, `Table::get`, `Function::call` and
/// `Context::create_registry_value`: calls the function at field `name` of a table with one
/// argument (nil when none is given) and keeps its result. Fails when that field is not a
/// function, or when the call raises.
#[verifier::external_body]
fn call_field(lua: &rlua::Lua, table: &rlua::RegistryKey, name: &str, arg: Option<&rlua::RegistryKey>) -> Result<rlua::RegistryKey, rlua::Error> {
    lua.context(|ctx| {
        let f = ctx.registry_value::<rlua::Table>(table)?.get::<_, rlua::Function>(name)?;
        let a = match arg { Some(k) => ctx.registry_value::<rlua::Value>(k)?, None => rlua::Value::Nil };
        ctx.create_registry_value(f.call::<_, rlua::Value>(a)?)
    })
}

/// Relies on `rlua::Context::create_table` and `Context::create_registry_value`: a new
/// empty table.
#[verifier::external_body]
fn new_table(lua: &rlua::Lua) -> Result<rlua::RegistryKey, rlua::Error> {
    lua.context(|ctx| ctx.create_registry_value(ctx.create_table()?))
}

/// Relies on `rlua::Context::registry_value` and `Table::set`: sets field `name` of a table
/// to a registry value.
#[verifier::external_body]
fn set_field(lua: &rlua::Lua, table: &rlua::RegistryKey, name: &str, value: &rlua::RegistryKey) -> Result<(), rlua::Error> {
    lua.context(|ctx| {
        let t = ctx.registry_value::<rlua::Table>(table)?;
        t.set(name, ctx.registry_value::<rlua::Value>(value)?)
    })
}

/// Relies on `rlua::Context::create_registry_value` for an integer.
#[verifier::external_body]
fn register_integer(lua: &rlua::Lua, i: i64) -> Result<rlua::RegistryKey, rlua::Error> {
    lua.context(|ctx| ctx.create_registry_value(i))
}

/// Relies on `rlua::Context::create_registry_value` for a string.
#[verifier::external_body]
fn register_string(lua: &rlua::Lua, s: &str) -> Result<rlua::RegistryKey, rlua::Error> {
    lua.context(|ctx| ctx.create_registry_value(s))
}

/// Relies on `rlua::Context::create_registry_value` for a `Vec`: a sequence of the bytes
/// as integers.
#[verifier::external_body]
fn register_bytes(lua: &rlua::Lua, b: &Vec<u8>) -> Result<rlua::RegistryKey, rlua::Error> {
    lua.context(|ctx| ctx.create_registry_value(b.clone()))
}

/// Relies on `rlua::Context::create_registry_value` for a `Vec`: a sequence of the strings.
#[verifier::external_body]
fn register_strings(lua: &rlua::Lua, v: &Vec<String>) -> Result<rlua::RegistryKey, rlua::Error> {
    lua.context(|ctx| ctx.create_registry_value(v.clone()))
}

/// Relies on `String::from_utf8`: a string exactly when the bytes are valid UTF-8.
#[verifier::external_body]
fn utf8_string(b: &Vec<u8>) -> (r: Option<String>)
    ensures
        r.is_some() == vstd::utf8::valid_utf8(b@),
        r matches Some(s) ==> s@ == vstd::utf8::decode_utf8(b@),
{
    String::from_utf8(b.clone()).ok()
}

fn interp<T>(r: Result<T, rlua::Error>) -> (o: Result<T, ScriptError>)
    ensures
        r matches Ok(v) ==> o == Ok::<T, ScriptError>(v),
        r is Err ==> o matches Err(ScriptError::Interpreter(_)),
{
    match r {
        Ok(v) => Ok(v),
        Err(e) => Err(ScriptError::Interpreter(e)),
    }
}

/// Attaches the seatrial standard library: the global `ValidationResult` table of
/// constructors.
pub fn attach_seatrial_stdlib(lua: &rlua::Lua) -> Result<(), ScriptError> {
    interp(exec_chunk(lua, "seatrial stdlib", STDLIB_SOURCE))
}

/// A response as it is handed to scripts: `body_string` is the body as text when, and only
/// when, the body is valid UTF-8.
#[derive(Clone, Debug)]
pub struct HttpResponseTable {
    pub status_code: u16,
    pub headers: Vec<(String, String)>,
    pub content_type: String,
    pub body: Vec<u8>,
    pub body_string: Option<String>,
}

/// The fields of a response's table: `status_code`, `headers`, `content_type`, `body`, and
/// `body_string` only when there is one.
pub open spec fn response_fields_view(t: HttpResponseTable) -> Seq<(Seq<char>, InputView)> {
    seq![
        ("status_code"@, InputView::Integer(t.status_code as i64)),
        ("headers"@, InputView::Pairs(header_pairs_view(t.headers@))),
        ("content_type"@, InputView::Str(t.content_type@)),
        ("body"@, InputView::Bytes(t.body@)),
    ] + match t.body_string {
        Some(s) => seq![("body_string"@, InputView::Str(s@))],
        None => Seq::empty(),
    }
}

impl HttpResponseTable {
    /// The keys and values this table is written with.
    pub fn fields(&self) -> (r: Vec<(&'static str, ScriptInput)>)
        ensures
            fields_view(r@) == response_fields_view(*self),
    {
        let mut r: Vec<(&'static str, ScriptInput)> = Vec::new();
        r.push(("status_code", ScriptInput::Integer(self.status_code as i64)));
        r.push(("headers", ScriptInput::Pairs(copy_headers(&self.headers))));
        r.push(("content_type", ScriptInput::Str(self.content_type.clone())));
        r.push(("body", ScriptInput::Bytes(copy_bytes(&self.body))));
        if let Some(s) = &self.body_string {
            r.push(("body_string", ScriptInput::Str(s.clone())));
        }
        assert(fields_view(r@) =~= response_fields_view(*self));
        r
    }

    /// The table for a response.
    pub fn from_response(status_code: u16, headers: &Vec<(String, String)>, content_type: &String, body: &Vec<u8>) -> (r: HttpResponseTable)
        ensures
            r.status_code == status_code,
            header_pairs_view(r.headers@) == header_pairs_view(headers@),
            r.content_type@ == content_type@,
            r.body@ == body@,
            r.body_string.is_some() == vstd::utf8::valid_utf8(body@),
            r.body_string matches Some(s) ==> s@ == vstd::utf8::decode_utf8(body@),
    {
        HttpResponseTable {
            status_code,
            headers: copy_headers(headers),
            content_type: content_type.clone(),
            body: copy_bytes(body),
            body_string: utf8_string(body),
        }
    }
}

/// The chunk that loads the user script: it adds `search_pattern` to the package path and
/// requires `module_name` into the global `_user_script`.
pub open spec fn loader_source(search_pattern: Seq<char>, module_name: Seq<char>) -> Seq<char> {
    "package.path = package.path .. \";"@ + search_pattern + "\"; _user_script = require('"@
        + module_name + "')"@
}

/// Builds the chunk that loads the user script.
pub fn user_script_loader(search_pattern: &str, module_name: &str) -> (r: String)
    ensures
        r@ == loader_source(search_pattern@, module_name@),
{
    let head = concat3("package.path = package.path .. \";", search_pattern, "\"; _user_script = require('");
    concat3(head.as_str(), module_name, "')")
}

/// One script interpreter, owned by one pipeline: the seatrial standard library attached,
/// and the user script loaded as a module table.
pub struct LuaForPipeline {
    lua: rlua::Lua,
    user_script: Option<rlua::RegistryKey>,
}

impl LuaForPipeline {
    /// An interpreter with the standard library attached and no user script.
    pub fn with_stdlib_only() -> (r: Result<LuaForPipeline, ScriptError>)
        ensures
            r matches Ok(b) ==> !b.has_user_script(),
    {
        let lua = new_interpreter();
        attach_seatrial_stdlib(&lua)?;
        Ok(LuaForPipeline { lua, user_script: None })
    }

    /// An interpreter with the standard library attached and the user script loaded: the
    /// module `module_name` is required with `search_pattern` (such as `/dir/?.lua`) added to
    /// the package path.
    pub fn new(search_pattern: &str, module_name: &str) -> (r: Result<LuaForPipeline, ScriptError>)
        ensures
            r matches Ok(b) ==> b.has_user_script(),
    {
        let lua = new_interpreter();
        attach_seatrial_stdlib(&lua)?;
        let loader = user_script_loader(search_pattern, module_name);
        let name = concat3("user_script<", search_pattern, ">");
        interp(exec_chunk(&lua, name.as_str(), loader.as_str()))?;
        let user_script = interp(global_key(&lua, "_user_script"))?;
        Ok(LuaForPipeline { lua, user_script: Some(user_script) })
    }

    /// An interpreter with the standard library attached and the user script given as source
    /// text: the chunk is run and the value it returns is the module table.
    pub fn with_user_script_source(source: &str) -> (r: Result<LuaForPipeline, ScriptError>)
        ensures
            r matches Ok(b) ==> b.has_user_script(),
    {
        let lua = new_interpreter();
        attach_seatrial_stdlib(&lua)?;
        let user_script = interp(eval_chunk(&lua, source))?;
        Ok(LuaForPipeline { lua, user_script: Some(user_script) })
    }

    pub closed spec fn has_user_script(&self) -> bool {
        self.user_script is Some
    }

    /// Keeps a plain value in the registry.
    fn register_input(&self, v: &ScriptInput) -> (r: Result<rlua::RegistryKey, ScriptError>)
        ensures
            r is Err ==> r matches Err(ScriptError::Interpreter(_)),
    {
        match v {
            ScriptInput::Integer(i) => interp(register_integer(&self.lua, *i)),
            ScriptInput::Str(s) => interp(register_string(&self.lua, s.as_str())),
            ScriptInput::Bytes(b) => interp(register_bytes(&self.lua, b)),
            ScriptInput::Strings(ws) => interp(register_strings(&self.lua, ws)),
            ScriptInput::Pairs(ps) => {
                let t = interp(new_table(&self.lua))?;
                let mut i: usize = 0;
                while i < ps.len()
                    invariant
                        i <= ps.len(),
                    decreases ps.len() - i,
                {
                    let v = interp(register_string(&self.lua, ps[i].1.as_str()))?;
                    interp(set_field(&self.lua, &t, ps[i].0.as_str(), &v))?;
                    i = i + 1;
                }
                Ok(t)
            },
        }
    }

    /// A new table with exactly these fields, set in order; only the interpreter can fail.
    pub fn write_table(&self, fields: &Vec<(&'static str, ScriptInput)>) -> (r: Result<Rc<rlua::RegistryKey>, ScriptError>)
        ensures
            r is Err ==> r matches Err(ScriptError::Interpreter(_)),
    {
        let t = interp(new_table(&self.lua))?;
        let mut i: usize = 0;
        while i < fields.len()
            invariant
                i <= fields.len(),
            decreases fields.len() - i,
        {
            let v = self.register_input(&fields[i].1)?;
            interp(set_field(&self.lua, &t, fields[i].0, &v))?;
            i = i + 1;
        }
        Ok(Rc::new(t))
    }

    /// Reads the value a registry handle refers to.
    pub fn value_at(&self, key: &rlua::RegistryKey) -> Result<ScriptValue, ScriptError> {
        interp(value_of(&self.lua, key))
    }

    /// Reads field `name` of the table a handle refers to (nil when absent); fails when the
    /// handle does not refer to a table.
    pub fn field_by_name(&self, table: &rlua::RegistryKey, name: &str) -> Result<ScriptValue, ScriptError> {
        let k = interp(field_key_by_name(&self.lua, table, name))?;
        interp(value_of(&self.lua, &k))
    }

    /// Reads element `index` of the table a handle refers to (nil when absent); fails when
    /// the handle does not refer to a table.
    pub fn field_by_index(&self, table: &rlua::RegistryKey, index: i64) -> Result<ScriptValue, ScriptError> {
        let k = interp(field_key_by_index(&self.lua, table, index))?;
        interp(value_of(&self.lua, &k))
    }

    /// The values of the sequence at field `name` of a table: `None` when the field is not a
    /// table.
    fn sequence_at(&self, table: &rlua::RegistryKey, name: &str) -> Result<Option<Vec<ScriptValue>>, ScriptError> {
        let k = interp(field_key_by_name(&self.lua, table, name))?;
        match interp(value_of(&self.lua, &k))? {
            ScriptValue::Table => {},
            _ => { return Ok(None); },
        }
        let n = interp(sequence_len(&self.lua, &k))?;
        let mut out: Vec<ScriptValue> = Vec::new();
        let mut i: i64 = 1;
        while i <= n
            invariant
                1 <= i,
            decreases n - i + 1,
        {
            let k2 = interp(field_key_by_index(&self.lua, &k, i))?;
            out.push(interp(value_of(&self.lua, &k2))?);
            if i == i64::MAX {
                break;
            }
            i = i + 1;
        }
        Ok(Some(out))
    }

    /// Evaluates a chunk and reads its value as a `ValidationResult`.
    pub fn eval_validation_result(&self, source: &str) -> (r: Result<ValidationResult, ScriptError>)
        ensures
            r matches Ok(v) ==> v.wf(),
    {
        let k = interp(eval_chunk(&self.lua, source))?;
        self.validation_result_at(&k)
    }

    /// Reads the value a handle refers to as a `ValidationResult` table: the tag, then the
    /// warnings or the error message that the tag calls for.
    pub fn validation_result_at(&self, key: &rlua::RegistryKey) -> (r: Result<ValidationResult, ScriptError>)
        ensures
            r matches Ok(v) ==> v.wf(),
    {
        let is_table = match interp(value_of(&self.lua, key))? {
            ScriptValue::Table => true,
            _ => false,
        };
        let code = if is_table {
            self.field_by_name(key, VALIDATION_RESULT_CODE_KEY)?
        } else {
            ScriptValue::Nil
        };
        let warnings = match code {
            ScriptValue::Integer(2) => self.sequence_at(key, VALIDATION_RESULT_WARNINGS_KEY)?,
            _ => None,
        };
        let error = match code {
            ScriptValue::Integer(3) => self.field_by_name(key, VALIDATION_RESULT_ERROR_KEY)?,
            _ => ScriptValue::Nil,
        };
        decode_validation_result(is_table, &code, warnings.as_ref(), &error)
    }

    /// Calls function `name` of the user script with the pipe contents made a script value by
    /// `to_lua` (nil when the pipe is empty), and returns a handle to its result. Without a
    /// user script it fails at once with a runtime error; any other failure is the
    /// interpreter's.
    pub fn run_user_script_function(&self, name: &str, pipe: Option<&PipeContents>) -> (r: Result<Rc<rlua::RegistryKey>, ScriptError>)
        ensures
            r matches Err(ScriptError::Runtime(_)) <==> !self.has_user_script(),
    {
        let module = match &self.user_script {
            None => { return Err(ScriptError::Runtime(String::from_str("no user script is loaded"))); },
            Some(m) => m,
        };
        let arg = match pipe {
            Some(p) => Some(p.to_lua(self)?),
            None => None,
        };
        let r = match &arg {
            Some(a) => call_field(&self.lua, module, name, Some(&**a)),
            None => call_field(&self.lua, module, name, None),
        };
        Ok(Rc::new(interp(r)?))
    }

    /// Calls validator function `name` of the user script and reads its `ValidationResult`.
    pub fn run_validator_function(&self, name: &str, pipe: Option<&PipeContents>) -> (r: Result<ValidationResult, ScriptError>)
        ensures
            r matches Ok(v) ==> v.wf(),
    {
        let k = self.run_user_script_function(name, pipe)?;
        self.validation_result_at(&*k)
    }
}

impl ValidationResult {
    /// Makes this result a script table, as the standard library's constructors do: exactly
    /// the fields `fields` gives.
    pub fn to_lua(&self, bridge: &LuaForPipeline) -> (r: Result<Rc<rlua::RegistryKey>, ScriptError>)
        ensures
            r is Err ==> r matches Err(ScriptError::Interpreter(_)),
    {
        bridge.write_table(&self.fields())
    }
}

impl PipeContents {
    /// Makes pipe contents a script value: a handle is returned as it is; a response becomes a
    /// table with exactly the fields of its `HttpResponseTable`.
    pub fn to_lua(&self, bridge: &LuaForPipeline) -> (r: Result<Rc<rlua::RegistryKey>, ScriptError>)
        ensures
            self matches PipeContents::ScriptRef(k) ==> r == Ok::<Rc<rlua::RegistryKey>, ScriptError>(*k),
            r is Err ==> r matches Err(ScriptError::Interpreter(_)),
    {
        match self {
            PipeContents::ScriptRef(k) => Ok(Rc::clone(k)),
            PipeContents::HttpResponse { body, content_type, headers, status_code } => {
                let table = HttpResponseTable::from_response(*status_code, headers, content_type, body);
                bridge.write_table(&table.fields())
            },
        }
    }
}

} // verus!
