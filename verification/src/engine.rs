//! The trusted boundary to the `monty` interpreter engine.
//!
//! Everything here either declares an engine type opaquely or wraps one
//! engine call, converting between the engine's value type and the
//! library's own. The engine computes; printing during a step is captured
//! into a string and handed back, so no call here performs I/O.

use vstd::prelude::*;

use monty_types::MontyObject;

use crate::value::{MontyValue, Pair};

verus! {

/// Declares the engine's compiled-run type.
#[verifier::external_type_specification]
#[verifier::external_body]
pub struct ExMontyRun(monty::MontyRun);

/// Declares the engine's suspended external-function-call state.
#[verifier::external_type_specification]
#[verifier::external_body]
pub struct ExFunctionCall(monty::FunctionCall);

/// Declares the engine's suspended OS-call state.
#[verifier::external_type_specification]
#[verifier::external_body]
pub struct ExOsCall(monty::OsCall);

/// Declares the engine's suspended name-lookup state.
#[verifier::external_type_specification]
#[verifier::external_body]
pub struct ExNameLookup(monty::NameLookup);

/// Declares the engine's suspended await-on-futures state.
#[verifier::external_type_specification]
#[verifier::external_body]
pub struct ExResolveFutures(monty::ResolveFutures);

/// Declares the engine's boundary value type.
#[verifier::external_type_specification]
#[verifier::external_body]
pub struct ExMontyObject(monty_types::MontyObject);

/// Declares the engine's exception-class enumeration.
#[verifier::external_type_specification]
#[verifier::external_body]
pub struct ExExcType(monty_types::ExcType);

/// Declares the engine's exception value.
#[verifier::external_type_specification]
#[verifier::external_body]
pub struct ExMontyException(monty_types::MontyException);

/// Declares the engine's external-call result type.
#[verifier::external_type_specification]
#[verifier::external_body]
pub struct ExExtFunctionResult(monty_types::ExtFunctionResult);

/// Declares the engine's step-progress type.
#[verifier::external_type_specification]
#[verifier::external_body]
pub struct ExRunProgress(monty::RunProgress);

/// What the host supplies when resuming one suspended external call.
pub enum ResumeInput {
    /// The call returned this value.
    Return(MontyValue),
    /// The call failed; the message becomes a runtime error raised at the
    /// suspended call site.
    Fail(String),
    /// The call's answer is itself not yet ready: resume with a pending
    /// future; execution continues until the value is awaited.
    StillPending,
}

/// One engine step's outcome, with every payload converted to plain values.
pub enum RawStep {
    /// Execution finished with this value.
    Done(MontyValue),
    /// Execution paused at an external function call.
    Call {
        /// The function or method name.
        name: String,
        /// Positional arguments.
        args: Vec<MontyValue>,
        /// Keyword arguments, in order.
        kwargs: Vec<Pair>,
        /// Correlation token for this call.
        call_id: u32,
        /// Whether this is a method call routed to a host object.
        is_method: bool,
        /// The resumable engine state.
        snap: monty::FunctionCall,
    },
    /// Execution paused at an OS-level operation.
    Os {
        /// The operation's name.
        operation: String,
        /// Positional arguments.
        args: Vec<MontyValue>,
        /// Keyword arguments, in order.
        kwargs: Vec<Pair>,
        /// Correlation token for this call.
        call_id: u32,
        /// The resumable engine state.
        snap: monty::OsCall,
    },
    /// Execution paused looking up an unresolved name.
    Lookup {
        /// The name being looked up.
        name: String,
        /// The resumable engine state.
        snap: monty::NameLookup,
    },
    /// All tasks are blocked awaiting external futures.
    Futures {
        /// The call identifiers still awaiting results.
        pending: Vec<u32>,
        /// The resumable engine state.
        snap: monty::ResolveFutures,
    },
    /// The engine raised an error it cannot continue from.
    Fail(String),
}

/// Conversion half: the library's value as the engine's value, one variant
/// for one; named records go over by their positional values, which is how
/// the engine itself compares them with plain tuples.
#[verifier::external_body]
fn to_monty(v: MontyValue) -> MontyObject {
    match v {
        MontyValue::NoneVal => MontyObject::None,
        MontyValue::Bool(b) => MontyObject::Bool(b),
        MontyValue::Int(i) => MontyObject::Int(i),
        MontyValue::Float(n) => MontyObject::Float(n.as_f64().unwrap_or_default()),
        MontyValue::Str(s) => MontyObject::String(s),
        MontyValue::Bytes(bs) => MontyObject::Bytes(bs),
        MontyValue::Path(p) => MontyObject::Path(p),
        MontyValue::List(xs) => MontyObject::List(xs.into_iter().map(to_monty).collect()),
        other => to_monty_mid(other),
    }
}

/// Second part of `to_monty`.
#[verifier::external_body]
fn to_monty_mid(v: MontyValue) -> MontyObject {
    match v {
        MontyValue::BigInt(b) => crate::encode::big_to_string(b.neg, &b.digits)
            .parse()
            .map_or(MontyObject::None, MontyObject::BigInt),
        MontyValue::Tuple(xs) => MontyObject::Tuple(xs.into_iter().map(to_monty).collect()),
        MontyValue::SetVal(xs) => MontyObject::Set(xs.into_iter().map(to_monty).collect()),
        MontyValue::FrozenSetVal(xs) => MontyObject::FrozenSet(
            xs.into_iter().map(to_monty).collect(),
        ),
        MontyValue::NamedTuple { ty_name, field_names, values } => {
            named_tuple_out(ty_name, field_names, values.into_iter().map(to_monty).collect())
        },
        other => to_monty_rest(other),
    }
}

/// Third part of `to_monty`.
#[verifier::external_body]
fn to_monty_rest(v: MontyValue) -> MontyObject {
    match v {
        MontyValue::Dict(ps) => MontyObject::Dict(pairs_to_monty(ps).into()),
        MontyValue::Exception { exc_type, arg } => MontyObject::Exception {
            exc_type: exc_kind_out(exc_type),
            arg,
        },
        MontyValue::Ellipsis => MontyObject::Ellipsis,
        MontyValue::Cycle(id, text) => MontyObject::Cycle(id as usize, text),
        MontyValue::Repr(r) => MontyObject::Repr(r),
        other => MontyObject::Repr(repr_text(&other)),
    }
}

/// Conversion helper for a named record going into the engine: the record
/// variant is assembled through the engine's documented externally tagged
/// serde form, its three fields moved one for one. If assembly fails the
/// positional values go over as a plain tuple, which the engine compares
/// with a named record by values.
#[verifier::external_body]
fn named_tuple_out(label: String, names: Vec<String>, values: Vec<MontyObject>) -> MontyObject {
    let mut inner = serde_json::Map::new();
    inner.insert(format!("{}_{}", "type", "name"), serde_json::Value::String(label));
    inner.insert("field_names".to_owned(), serde_json::to_value(&names).unwrap_or_default());
    inner.insert("values".to_owned(), serde_json::to_value(&values).unwrap_or_default());
    let mut outer = serde_json::Map::new();
    outer.insert("NamedTuple".to_owned(), serde_json::Value::Object(inner));
    match serde_json::from_value(serde_json::Value::Object(outer)) {
        Ok(o) => o,
        Err(_) => MontyObject::Tuple(values),
    }
}

/// Conversion helper: key/value pairs into the engine's pair vector.
#[verifier::external_body]
fn pairs_to_monty(ps: Vec<Pair>) -> Vec<(MontyObject, MontyObject)> {
    ps.into_iter().map(|p| (to_monty(p.key), to_monty(p.val))).collect()
}

/// The fallback rendering for a value the engine's input model lacks: its
/// canonical wire text, produced by the verified encoder.
fn repr_text(v: &MontyValue) -> (r: String)
    ensures
        r@ == crate::wire::wire_text(crate::codec::enc(v@)),
{
    match crate::encode::encode_object(v) {
        Ok(s) => s,
        Err(_) => String::new(),
    }
}

/// Conversion half: the engine's exception kind as the library's, by its
/// wire name; the names coincide by construction.
#[verifier::external_body]
fn exc_kind_in(k: monty_types::ExcType) -> crate::exc::ExcKind {
    match crate::exc::ExcKind::parse_name(&k.to_string()) {
        Some(kind) => kind,
        None => crate::exc::ExcKind::Exception,
    }
}

/// Conversion half: the library's exception kind as the engine's.
#[verifier::external_body]
fn exc_kind_out(k: crate::exc::ExcKind) -> monty_types::ExcType {
    k.name_string().parse::<monty_types::ExcType>().unwrap_or_default()
}

/// Conversion half: the engine's value as the library's, one variant for
/// one; engine variants outside the value model fall back to their textual
/// rendering, as the codec's `$repr` escape expects.
#[verifier::external_body]
fn from_monty(o: MontyObject) -> MontyValue {
    match o {
        MontyObject::None => MontyValue::NoneVal,
        MontyObject::Bool(b) => MontyValue::Bool(b),
        MontyObject::Int(i) => MontyValue::Int(i),
        MontyObject::Float(f) => serde_json::Number::from_f64(f)
            .map_or(MontyValue::NoneVal, MontyValue::Float),
        MontyObject::String(s) => MontyValue::Str(s),
        MontyObject::Bytes(bs) => MontyValue::Bytes(bs),
        MontyObject::Path(p) => MontyValue::Path(p),
        MontyObject::List(xs) => MontyValue::List(xs.into_iter().map(from_monty).collect()),
        other => from_monty_mid(other),
    }
}

/// Second part of `from_monty`.
#[verifier::external_body]
fn from_monty_mid(o: MontyObject) -> MontyValue {
    match o {
        MontyObject::BigInt(b) => crate::decode::parse_bigint(&b.to_string())
            .map_or(MontyValue::NoneVal, MontyValue::BigInt),
        MontyObject::Tuple(xs) => MontyValue::Tuple(xs.into_iter().map(from_monty).collect()),
        MontyObject::Set(xs) => MontyValue::SetVal(xs.into_iter().map(from_monty).collect()),
        MontyObject::FrozenSet(xs) => MontyValue::FrozenSetVal(
            xs.into_iter().map(from_monty).collect(),
        ),
        MontyObject::NamedTuple { .. } => named_tuple_in(o),
        other => from_monty_rest(other),
    }
}

/// Third part of `from_monty`.
#[verifier::external_body]
fn from_monty_rest(o: MontyObject) -> MontyValue {
    match o {
        MontyObject::Dict(ps) => MontyValue::Dict(
            ps.into_iter().map(|(k, v)| Pair { key: from_monty(k), val: from_monty(v) }).collect(),
        ),
        MontyObject::Exception { exc_type, arg } => MontyValue::Exception {
            exc_type: exc_kind_in(exc_type),
            arg,
        },
        MontyObject::Ellipsis => MontyValue::Ellipsis,
        MontyObject::Cycle(id, text) => MontyValue::Cycle(id as u64, text),
        MontyObject::Repr(r) => MontyValue::Repr(r),
        other => MontyValue::Repr(other.to_string()),
    }
}

/// Conversion helper for an engine named-record value: the record type's
/// name is read from the engine's documented externally tagged serde form,
/// its field names and values move over one for one.
#[verifier::external_body]
fn named_tuple_in(o: MontyObject) -> MontyValue {
    let label: String = serde_json::to_value(&o)
        .ok()
        .and_then(|v| {
            v.get("NamedTuple")?.get(format!("{}_{}", "type", "name"))?.as_str().map(String::from)
        })
        .unwrap_or_default();
    match o {
        MontyObject::NamedTuple { field_names, values, .. } => MontyValue::NamedTuple {
            ty_name: label,
            field_names,
            values: values.into_iter().map(from_monty).collect(),
        },
        other => MontyValue::Repr(other.to_string()),
    }
}

/// Conversion helper: a resume input as the engine's external result.
#[verifier::external_body]
fn input_to_result(input: ResumeInput, call_id: u32) -> monty_types::ExtFunctionResult {
    match input {
        ResumeInput::Return(v) => monty_types::ExtFunctionResult::Return(to_monty(v)),
        ResumeInput::Fail(msg) => monty_types::ExtFunctionResult::Error(
            monty_types::MontyException::new(monty_types::ExcType::RuntimeError, Some(msg)),
        ),
        ResumeInput::StillPending => monty_types::ExtFunctionResult::Future(call_id),
    }
}

/// Conversion helper: one engine progress outcome as a `RawStep`, with its
/// payloads converted; variants are told apart, fields moved.
#[verifier::external_body]
fn step_of(p: Result<monty::RunProgress, monty_types::MontyException>) -> RawStep {
    match p {
        Ok(monty::RunProgress::Complete(v)) => RawStep::Done(from_monty(v)),
        Ok(monty::RunProgress::FunctionCall(fc)) => call_step(fc),
        Ok(monty::RunProgress::OsCall(oc)) => os_step(oc),
        Ok(monty::RunProgress::NameLookup(nl)) => RawStep::Lookup {
            name: nl.name.clone(),
            snap: nl,
        },
        Ok(monty::RunProgress::ResolveFutures(rf)) => RawStep::Futures {
            pending: rf.pending_call_ids().to_vec(),
            snap: rf,
        },
        Err(e) => RawStep::Fail(e.summary()),
    }
}

/// Conversion helper for a suspended function call: moves the call's name
/// and arguments out and keeps the resumable state.
#[verifier::external_body]
fn call_step(mut fc: monty::FunctionCall) -> RawStep {
    let args = std::mem::take(&mut fc.args).into_iter().map(from_monty).collect();
    let kwargs = std::mem::take(&mut fc.kwargs)
        .into_iter()
        .map(|(k, v)| Pair { key: from_monty(k), val: from_monty(v) })
        .collect();
    RawStep::Call {
        name: std::mem::take(&mut fc.function_name),
        args,
        kwargs,
        call_id: fc.call_id,
        is_method: fc.object_id.is_some(),
        snap: fc,
    }
}

/// Conversion helper for a suspended OS call: projects the typed call into
/// name, positional and keyword arguments, and keeps the resumable state.
#[verifier::external_body]
fn os_step(oc: monty::OsCall) -> RawStep {
    let (args, kwargs) = oc.function_call.clone().to_args();
    RawStep::Os {
        operation: oc.function_call.name().to_string(),
        args: args.into_iter().map(from_monty).collect(),
        kwargs: kwargs
            .into_iter()
            .map(|(k, v)| Pair { key: from_monty(k), val: from_monty(v) })
            .collect(),
        call_id: oc.call_id,
        snap: oc,
    }
}

/// Whether the engine accepts a program: compilation is a function of the
/// source text, the script name and the declared input names alone.
pub uninterp spec fn compiles(code: Seq<char>, script: Seq<char>, inputs: Seq<Seq<char>>) -> bool;

/// Whether bytes decode as a compiled-run image.
pub uninterp spec fn run_image_ok(b: Seq<u8>) -> bool;

/// Whether bytes decode as a suspended-function-call image.
pub uninterp spec fn call_image_ok(b: Seq<u8>) -> bool;

/// Whether bytes decode as a suspended-OS-call image.
pub uninterp spec fn os_image_ok(b: Seq<u8>) -> bool;

/// The pending call identifiers of an await-state image, or nothing where
/// the bytes decode as no such image.
pub uninterp spec fn futures_image(b: Seq<u8>) -> Option<Seq<u32>>;

/// Relies on `monty::MontyRun::new`: parses and compiles a program, or
/// reports why it cannot be compiled; deterministic in its arguments.
#[verifier::external_body]
pub fn engine_new(code: String, script_name: &String, input_names: Vec<String>) -> (r: Result<
    monty::MontyRun,
    String,
>)
    ensures
        (r is Ok <==> compiles(code@, script_name@, crate::value::strings_model(input_names))),
{
    monty::MontyRun::new(
        code,
        script_name.as_str(),
        input_names,
        monty_types::CompileOptions::default(),
    ).map_err(|e| e.summary())
}

/// Relies on `monty::MontyRun::start`: runs the program until it completes
/// or suspends, collecting printed output into the returned string.
#[verifier::external_body]
pub fn engine_start(run: &monty::MontyRun, inputs: Vec<MontyValue>) -> (r: (RawStep, String)) {
    let mut out = String::new();
    let objs: Vec<MontyObject> = inputs.into_iter().map(to_monty).collect();
    let progress = run.clone().start(
        objs,
        monty_types::ResourceTracker::default(),
        monty_types::PrintWriter::CollectString(&mut out, None),
    );
    (step_of(progress), out)
}

/// Relies on `monty::FunctionCall::resume` and `resume_pending`: continues
/// execution with the call's result, collecting printed output.
#[verifier::external_body]
pub fn engine_resume_call(snap: monty::FunctionCall, input: ResumeInput) -> (r: (RawStep, String)) {
    let mut out = String::new();
    let call_id = snap.call_id;
    let pw = monty_types::PrintWriter::CollectString(&mut out, None);
    let progress = snap.resume(input_to_result(input, call_id), pw);
    (step_of(progress), out)
}

/// Relies on `monty::OsCall::resume`: continues execution with the OS
/// call's result, collecting printed output.
#[verifier::external_body]
pub fn engine_resume_os(snap: monty::OsCall, input: ResumeInput) -> (r: (RawStep, String)) {
    let mut out = String::new();
    let call_id = snap.call_id;
    let pw = monty_types::PrintWriter::CollectString(&mut out, None);
    let progress = snap.resume(input_to_result(input, call_id), pw);
    (step_of(progress), out)
}

/// Relies on `monty::NameLookup::resume`: answers a suspended name lookup
/// with a host function object of the given name.
#[verifier::external_body]
pub fn engine_resume_lookup_function(snap: monty::NameLookup, name: String) -> (r: (
    RawStep,
    String,
)) {
    let mut out = String::new();
    let pw = monty_types::PrintWriter::CollectString(&mut out, None);
    let progress = snap.resume(MontyObject::Function { name, docstring: None }, pw);
    (step_of(progress), out)
}

/// Relies on `monty::NameLookup::resume`: answers a suspended name lookup
/// as undefined, so the program raises the matching name error.
#[verifier::external_body]
pub fn engine_resume_lookup_missing(snap: monty::NameLookup) -> (r: (RawStep, String)) {
    let mut out = String::new();
    let pw = monty_types::PrintWriter::CollectString(&mut out, None);
    let progress = snap.resume(monty_types::NameLookupResult::Undefined, pw);
    (step_of(progress), out)
}

/// Relies on `monty::ResolveFutures::resume`: applies a batch of results
/// keyed by call identifier and continues until blocked again.
#[verifier::external_body]
pub fn engine_resume_futures(snap: monty::ResolveFutures, results: Vec<(u32, ResumeInput)>) -> (r: (
    RawStep,
    String,
)) {
    let mut out = String::new();
    let converted: Vec<(u32, monty_types::ExtFunctionResult)> = results
        .into_iter()
        .map(|(id, input)| (id, input_to_result(input, id)))
        .collect();
    let pw = monty_types::PrintWriter::CollectString(&mut out, None);
    let progress = snap.resume(converted, pw);
    (step_of(progress), out)
}

/// Relies on `postcard::to_allocvec` and its documented serialize/
/// deserialize round trip: a serialized compiled run deserializes again.
#[verifier::external_body]
pub fn engine_run_dump(run: &monty::MontyRun) -> (r: Result<Vec<u8>, String>)
    ensures
        (r matches Ok(b) ==> run_image_ok(b@)),
{
    postcard::to_allocvec(run).map_err(|e| e.to_string())
}

/// Relies on `postcard::from_bytes`: reconstructs a compiled run, or
/// rejects bytes that do not decode as one; deterministic in the bytes.
#[verifier::external_body]
pub fn engine_run_load(bytes: &Vec<u8>) -> (r: Result<monty::MontyRun, String>)
    ensures
        (r is Ok <==> run_image_ok(bytes@)),
{
    postcard::from_bytes(bytes.as_slice()).map_err(|e| e.to_string())
}

/// Relies on `postcard::to_allocvec` and its documented round trip:
/// serializes a suspended function call that deserializes again.
#[verifier::external_body]
pub fn engine_call_dump(snap: &monty::FunctionCall) -> (r: Result<Vec<u8>, String>)
    ensures
        (r matches Ok(b) ==> call_image_ok(b@)),
{
    postcard::to_allocvec(snap).map_err(|e| e.to_string())
}

/// Relies on `postcard::from_bytes`: reconstructs a suspended function
/// call; deterministic in the bytes.
#[verifier::external_body]
pub fn engine_call_load(bytes: &Vec<u8>) -> (r: Result<monty::FunctionCall, String>)
    ensures
        (r is Ok <==> call_image_ok(bytes@)),
{
    postcard::from_bytes(bytes.as_slice()).map_err(|e| e.to_string())
}

/// Relies on `postcard::to_allocvec` and its documented round trip:
/// serializes a suspended OS call that deserializes again.
#[verifier::external_body]
pub fn engine_os_dump(snap: &monty::OsCall) -> (r: Result<Vec<u8>, String>)
    ensures
        (r matches Ok(b) ==> os_image_ok(b@)),
{
    postcard::to_allocvec(snap).map_err(|e| e.to_string())
}

/// Relies on `postcard::from_bytes`: reconstructs a suspended OS call;
/// deterministic in the bytes.
#[verifier::external_body]
pub fn engine_os_load(bytes: &Vec<u8>) -> (r: Result<monty::OsCall, String>)
    ensures
        (r is Ok <==> os_image_ok(bytes@)),
{
    postcard::from_bytes(bytes.as_slice()).map_err(|e| e.to_string())
}

/// Relies on `postcard::to_allocvec` and its documented round trip:
/// serializes a suspended await state that deserializes again.
#[verifier::external_body]
pub fn engine_futures_dump(snap: &monty::ResolveFutures) -> (r: Result<Vec<u8>, String>)
    ensures
        (r matches Ok(b) ==> futures_image(b@) is Some),
{
    postcard::to_allocvec(snap).map_err(|e| e.to_string())
}

/// Relies on `postcard::from_bytes` and `pending_call_ids`: reconstructs a
/// suspended await state with its own pending call identifiers; both are
/// deterministic in the bytes.
#[verifier::external_body]
pub fn engine_futures_load(bytes: &Vec<u8>) -> (r: Result<
    (monty::ResolveFutures, Vec<u32>),
    String,
>)
    ensures
        (r is Ok <==> futures_image(bytes@) is Some),
        (r matches Ok(p) ==> futures_image(bytes@) == Some(p.1@)),
{
    postcard::from_bytes::<monty::ResolveFutures>(bytes.as_slice())
        .map(|rf| {
            let ids = rf.pending_call_ids().to_vec();
            (rf, ids)
        })
        .map_err(|e| e.to_string())
}

} // verus!
