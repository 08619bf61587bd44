//! The execution event protocol: a run is driven one step at a time, each
//! step yielding one event that may carry a resumable continuation.
//!
//! The verified layer validates inputs before the engine sees them, decides
//! suspended name lookups against the run's declared external functions,
//! enforces single consumption of continuations, and keeps the pending-call
//! bookkeeping of multi-pending continuations.

use vstd::prelude::*;

use crate::engine::{
    engine_new, engine_resume_call, engine_resume_futures, engine_resume_lookup_function,
    engine_resume_lookup_missing, engine_resume_os, engine_start, RawStep, ResumeInput,
};
use crate::error::FfiError;
use crate::value::{MontyValue, Pair};
use crate::wire::{obj_get, wmodel, wmodel_entries, wmodel_seq, Entry, JsonValue, WireModel};

verus! {

broadcast use vstd::std_specs::vec::axiom_vec_index_decreases;

/// Whether some string of `v` has the view of `s`.
pub open spec fn has_string(v: Seq<String>, s: Seq<char>) -> bool {
    exists|i: int| 0 <= i < v.len() && (#[trigger] v[i])@ == s
}

/// Finds whether the vector holds a string equal to `s`.
fn contains_string(v: &Vec<String>, s: &String) -> (r: bool)
    ensures
        r == has_string(v@, s@),
{
    let mut i: usize = 0;
    while i < v.len()
        invariant
            i <= v.len(),
            forall|j: int| 0 <= j < i ==> (#[trigger] v@[j])@ != s@,
        decreases v.len() - i,
    {
        if v[i] == *s {
            return true;
        }
        i = i + 1;
    }
    false
}

/// Copies a string vector; the copy has the same views in the same order.
fn copy_strings(v: &Vec<String>) -> (r: Vec<String>)
    ensures
        r@ == v@,
{
    let mut r: Vec<String> = Vec::new();
    let mut i: usize = 0;
    while i < v.len()
        invariant
            i <= v.len(),
            r@ =~= v@.take(i as int),
        decreases v.len() - i,
    {
        r.push(v[i].clone());
        assert(r@ =~= v@.take(i + 1 as int));
        i = i + 1;
    }
    assert(r@ =~= v@);
    r
}

/// Copies a call-identifier vector.
fn copy_u32s(v: &Vec<u32>) -> (r: Vec<u32>)
    ensures
        r@ == v@,
{
    let mut r: Vec<u32> = Vec::new();
    let mut i: usize = 0;
    while i < v.len()
        invariant
            i <= v.len(),
            r@ =~= v@.take(i as int),
        decreases v.len() - i,
    {
        r.push(v[i]);
        assert(r@ =~= v@.take(i + 1 as int));
        i = i + 1;
    }
    assert(r@ =~= v@);
    r
}

/// A single-pending continuation: the engine state of one suspended
/// external call, consumable exactly once.
#[derive(Debug)]
pub struct Continuation {
    /// The suspended engine state; `None` once consumed.
    inner: Option<EngineSuspend>,
    /// The run's declared external function names, carried so later steps
    /// can keep answering name lookups.
    ext_funcs: Vec<String>,
}

/// The two suspended shapes a single-pending continuation can hold.
#[derive(Debug)]
enum EngineSuspend {
    /// Suspended at an external function call.
    Fn(monty::FunctionCall),
    /// Suspended at an OS call.
    Os(monty::OsCall),
}

/// A multi-pending continuation: the engine state of a run blocked on
/// several outstanding calls, consumable exactly once.
#[derive(Debug)]
pub struct MultiContinuation {
    /// The suspended engine state; `None` once consumed.
    inner: Option<monty::ResolveFutures>,
    /// The call identifiers still awaiting results.
    pending: Vec<u32>,
    /// The run's declared external function names.
    ext_funcs: Vec<String>,
}

/// One event produced by driving a run one step forward.
#[derive(Debug)]
pub enum StepEvent {
    /// The run finished with a final value; no further resume is valid.
    Complete {
        /// The final value.
        value: MontyValue,
        /// Text the program printed during the step.
        output: String,
    },
    /// The run waits for the host to perform an external function call.
    FunctionCall {
        /// The function or method name.
        name: String,
        /// Positional arguments, as values.
        args: Vec<MontyValue>,
        /// Keyword arguments, as ordered pairs.
        kwargs: Vec<Pair>,
        /// Correlation token, unique among outstanding calls.
        call_id: u32,
        /// Whether this is a method call routed to a host object.
        is_method: bool,
        /// The continuation to resume with the call's result.
        continuation: Continuation,
        /// Text the program printed during the step.
        output: String,
    },
    /// The run waits for the host to perform an OS-level operation.
    OsCall {
        /// The operation's name.
        operation: String,
        /// Positional arguments, as values.
        args: Vec<MontyValue>,
        /// Keyword arguments, as ordered pairs.
        kwargs: Vec<Pair>,
        /// Correlation token, unique among outstanding calls.
        call_id: u32,
        /// The continuation to resume with the operation's result.
        continuation: Continuation,
        /// Text the program printed during the step.
        output: String,
    },
    /// Every task of the run is blocked awaiting external futures.
    ResolveFutures {
        /// The call identifiers awaiting results.
        pending_call_ids: Vec<u32>,
        /// The continuation to resume with a batch of keyed results.
        continuation: MultiContinuation,
        /// Text the program printed during the step.
        output: String,
    },
}

impl Continuation {
    /// Whether this continuation has already been consumed.
    pub closed spec fn consumed(&self) -> bool {
        self.inner is None
    }

    /// Reports whether this continuation has already been consumed.
    pub fn is_consumed(&self) -> (r: bool)
        ensures
            r == self.consumed(),
    {
        match &self.inner {
            Some(_) => false,
            None => true,
        }
    }

    /// Resumes the suspended call with the host's answer, driving the run
    /// one step further. A continuation is consumed by its first resume;
    /// resuming again is a usage error, distinct from any data error, and
    /// leaves nothing changed.
    pub fn resume(&mut self, input: ResumeInput) -> (r: Result<StepEvent, FfiError>)
        ensures
            old(self).consumed() ==> (r matches Err(e) && e is Usage),
            old(self).consumed() ==> *final(self) == *old(self),
            final(self).consumed(),
            (r matches Ok(ev) ==> event_consistent(ev)),
    {
        let ext_funcs = copy_strings(&self.ext_funcs);
        match self.inner.take() {
            None => Err(FfiError::Usage("continuation already consumed".to_owned())),
            Some(EngineSuspend::Fn(snap)) => {
                let (step, out) = engine_resume_call(snap, input);
                drive(ext_funcs, step, out)
            },
            Some(EngineSuspend::Os(snap)) => {
                let (step, out) = engine_resume_os(snap, input);
                drive(ext_funcs, step, out)
            },
        }
    }
}

impl MultiContinuation {
    /// Whether this continuation has already been consumed.
    pub closed spec fn consumed(&self) -> bool {
        self.inner is None
    }

    /// The call identifiers this continuation is waiting on.
    pub closed spec fn pending_ids(&self) -> Seq<u32> {
        self.pending@
    }

    /// Reports whether this continuation has already been consumed.
    pub fn is_consumed(&self) -> (r: bool)
        ensures
            r == self.consumed(),
    {
        match &self.inner {
            Some(_) => false,
            None => true,
        }
    }

    /// The call identifiers this continuation is waiting on, in order.
    pub fn pending_call_ids(&self) -> (r: Vec<u32>)
        ensures
            r@ == self.pending_ids(),
    {
        copy_u32s(&self.pending)
    }

    /// Resumes the blocked run with a batch of zero or more results keyed
    /// by call identifier.
    ///
    /// A batch naming a call identifier that is not pending is a data
    /// error: it is reported without consuming the continuation, so the
    /// caller may retry with corrected input. An empty batch forces no
    /// progress: it yields a fresh event with the same pending identifiers.
    /// Resuming an already-consumed continuation is a usage error.
    pub fn resume_batch(&mut self, results: Vec<(u32, ResumeInput)>) -> (r: Result<
        StepEvent,
        FfiError,
    >)
        ensures
            old(self).consumed() ==> (r matches Err(e) && e is Usage),
            old(self).consumed() ==> *final(self) == *old(self),
            (!old(self).consumed() && !ids_pending(results@, old(self).pending_ids()) ==> (
            r matches Err(e) && e is Message)),
            (!old(self).consumed() && !ids_pending(results@, old(self).pending_ids())
                ==> *final(self) == *old(self)),
            (!old(self).consumed() && ids_pending(results@, old(self).pending_ids())
                && results@.len() == 0 ==> (r matches Ok(ev) && ev matches
            StepEvent::ResolveFutures { pending_call_ids, continuation, .. }
                && pending_call_ids@ == old(self).pending_ids()
                && continuation.pending_ids() == old(self).pending_ids()
                && !continuation.consumed())),
            (!old(self).consumed() && ids_pending(results@, old(self).pending_ids())
                && results@.len() == 0 ==> final(self).consumed()),
            (!old(self).consumed() && ids_pending(results@, old(self).pending_ids())
                && results@.len() != 0 ==> final(self).consumed() && (r matches Ok(ev)
                ==> event_consistent(ev))),
    {
        if self.is_consumed() {
            return Err(FfiError::Usage("continuation already consumed".to_owned()));
        }
        let mut i: usize = 0;
        while i < results.len()
            invariant
                i <= results.len(),
                !old(self).consumed(),
                *self == *old(self),
                forall|j: int| 0 <= j < i ==> id_known(
                    (#[trigger] results@[j]).0,
                    self.pending@,
                ),
            decreases results.len() - i,
        {
            let mut found = false;
            let mut k: usize = 0;
            let id = results[i].0;
            while k < self.pending.len()
                invariant
                    k <= self.pending@.len(),
                    id == results@[i as int].0,
                    found == (exists|t: int| 0 <= t < k && self.pending@[t] == id),
                decreases self.pending@.len() - k,
            {
                if self.pending[k] == id {
                    found = true;
                }
                k = k + 1;
            }
            if !found {
                assert(!id_known(results@[i as int].0, self.pending@));
                assert(!ids_pending(results@, self.pending@));
                return Err(FfiError::Message("unknown call_id in result batch".to_owned()));
            }
            assert(id_known(results@[i as int].0, self.pending@));
            i = i + 1;
        }
        assert(ids_pending(results@, self.pending@));
        let ext_funcs = copy_strings(&self.ext_funcs);
        if results.len() == 0 {
            let ids = copy_u32s(&self.pending);
            match self.inner.take() {
                Some(snap) => Ok(
                    StepEvent::ResolveFutures {
                        pending_call_ids: ids,
                        continuation: MultiContinuation {
                            inner: Some(snap),
                            pending: copy_u32s(&self.pending),
                            ext_funcs,
                        },
                        output: String::new(),
                    },
                ),
                None => Err(FfiError::Usage("continuation already consumed".to_owned())),
            }
        } else {
            match self.inner.take() {
                Some(snap) => {
                    let (step, out) = engine_resume_futures(snap, results);
                    drive(ext_funcs, step, out)
                },
                None => Err(FfiError::Usage("continuation already consumed".to_owned())),
            }
        }
    }
}

/// Whether one call identifier is among the pending ones.
pub open spec fn id_known(id: u32, pending: Seq<u32>) -> bool {
    exists|t: int| 0 <= t < pending.len() && pending[t] == id
}

/// Whether every identifier of the batch is among the pending ones.
pub open spec fn ids_pending(results: Seq<(u32, ResumeInput)>, pending: Seq<u32>) -> bool {
    forall|j: int| 0 <= j < results.len() ==> id_known((#[trigger] results[j]).0, pending)
}

/// Internal consistency of an event: its continuation, if any, is fresh,
/// and a multi-pending continuation waits on exactly the identifiers the
/// event reports.
pub open spec fn event_consistent(ev: StepEvent) -> bool {
    match ev {
        StepEvent::Complete { .. } => true,
        StepEvent::FunctionCall { continuation, .. } => !continuation.consumed(),
        StepEvent::OsCall { continuation, .. } => !continuation.consumed(),
        StepEvent::ResolveFutures { pending_call_ids, continuation, .. } => {
            &&& !continuation.consumed()
            &&& continuation.pending_ids() == pending_call_ids@
        },
    }
}

/// Builds the externally observable event for one settled (non-lookup)
/// engine step: each step variant yields the matching event carrying
/// exactly the step's payload and collected output, and an engine failure
/// becomes a data error carrying exactly its message.
fn emit(ext_funcs: Vec<String>, step: RawStep, out: String) -> (r: Result<StepEvent, FfiError>)
    requires
        !(step is Lookup),
    ensures
        (r matches Ok(ev) ==> event_consistent(ev)),
        (step matches RawStep::Done(value) ==> (r matches Ok(ev) && ev matches
        StepEvent::Complete { value: v2, output: o2 } && v2 == value && o2 == out)),
        (step matches RawStep::Call { name, args, kwargs, call_id, is_method, .. } ==> (
        r matches Ok(ev) && ev matches StepEvent::FunctionCall {
            name: n2,
            args: a2,
            kwargs: k2,
            call_id: c2,
            is_method: m2,
            continuation,
            output: o2,
        } && n2 == name && a2 == args && k2 == kwargs && c2 == call_id && m2 == is_method
            && !continuation.consumed() && o2 == out)),
        (step matches RawStep::Os { operation, args, kwargs, call_id, .. } ==> (r matches Ok(ev)
            && ev matches StepEvent::OsCall {
            operation: p2,
            args: a2,
            kwargs: k2,
            call_id: c2,
            continuation,
            output: o2,
        } && p2 == operation && a2 == args && k2 == kwargs && c2 == call_id
            && !continuation.consumed() && o2 == out)),
        (step matches RawStep::Futures { pending, .. } ==> (r matches Ok(ev) && ev matches
        StepEvent::ResolveFutures { pending_call_ids, continuation, output: o2 }
            && pending_call_ids@ == pending@ && continuation.pending_ids() == pending@
            && !continuation.consumed() && o2 == out)),
        (step matches RawStep::Fail(msg) ==> (r matches Err(e) && e == FfiError::Message(msg))),
{
    match step {
        RawStep::Done(value) => Ok(StepEvent::Complete { value, output: out }),
        RawStep::Call { name, args, kwargs, call_id, is_method, snap } => Ok(
            StepEvent::FunctionCall {
                name,
                args,
                kwargs,
                call_id,
                is_method,
                continuation: Continuation { inner: Some(EngineSuspend::Fn(snap)), ext_funcs },
                output: out,
            },
        ),
        RawStep::Os { operation, args, kwargs, call_id, snap } => Ok(
            StepEvent::OsCall {
                operation,
                args,
                kwargs,
                call_id,
                continuation: Continuation { inner: Some(EngineSuspend::Os(snap)), ext_funcs },
                output: out,
            },
        ),
        RawStep::Futures { pending, snap } => {
            let ids = copy_u32s(&pending);
            Ok(
                StepEvent::ResolveFutures {
                    pending_call_ids: ids,
                    continuation: MultiContinuation { inner: Some(snap), pending, ext_funcs },
                    output: out,
                },
            )
        },
        RawStep::Lookup { .. } => Err(FfiError::Message("name lookup limit exceeded".to_owned())),
        RawStep::Fail(msg) => Err(FfiError::Message(msg)),
    }
}

/// Drives raw engine steps until one is an externally observable event,
/// answering name lookups on the way: a declared external function name
/// resolves to a callable, any other name stays undefined. A settled first
/// step yields exactly the matching event with the step's own payload (see
/// `emit`). The number of lookups answered within one step is bounded; a
/// program exceeding the bound is reported as a data error rather than
/// looping forever.
fn drive(ext_funcs: Vec<String>, first: RawStep, first_out: String) -> (r: Result<
    StepEvent,
    FfiError,
>)
    ensures
        (r matches Ok(ev) ==> event_consistent(ev)),
        (first matches RawStep::Done(value) ==> (r matches Ok(ev) && ev matches
        StepEvent::Complete { value: v2, output: o2 } && v2 == value && o2 == first_out)),
        (first matches RawStep::Call { name, args, kwargs, call_id, is_method, .. } ==> (
        r matches Ok(ev) && ev matches StepEvent::FunctionCall {
            name: n2,
            args: a2,
            kwargs: k2,
            call_id: c2,
            is_method: m2,
            continuation,
            output: o2,
        } && n2 == name && a2 == args && k2 == kwargs && c2 == call_id && m2 == is_method
            && !continuation.consumed() && o2 == first_out)),
        (first matches RawStep::Os { operation, args, kwargs, call_id, .. } ==> (r matches Ok(ev)
            && ev matches StepEvent::OsCall {
            operation: p2,
            args: a2,
            kwargs: k2,
            call_id: c2,
            continuation,
            output: o2,
        } && p2 == operation && a2 == args && k2 == kwargs && c2 == call_id
            && !continuation.consumed() && o2 == first_out)),
        (first matches RawStep::Futures { pending, .. } ==> (r matches Ok(ev) && ev matches
        StepEvent::ResolveFutures { pending_call_ids, continuation, output: o2 }
            && pending_call_ids@ == pending@ && continuation.pending_ids() == pending@
            && !continuation.consumed() && o2 == first_out)),
        (first matches RawStep::Fail(msg) ==> (r matches Err(e) && e == FfiError::Message(msg))),
{
    match first {
        RawStep::Lookup { name, snap } => {
            let mut output = first_out;
            let (next, out) = if contains_string(&ext_funcs, &name) {
                crate::engine::engine_resume_lookup_function(snap, name)
            } else {
                engine_resume_lookup_missing(snap)
            };
            output.append(out.as_str());
            let mut step = next;
            let mut fuel: u64 = 0xFFFF_FFFF;
            while fuel > 0
                invariant
                    first is Lookup,
                decreases fuel,
            {
                match step {
                    RawStep::Lookup { name: n2, snap: s2 } => {
                        let (next2, out2) = if contains_string(&ext_funcs, &n2) {
                            crate::engine::engine_resume_lookup_function(s2, n2)
                        } else {
                            engine_resume_lookup_missing(s2)
                        };
                        output.append(out2.as_str());
                        step = next2;
                    },
                    settled => {
                        return emit(ext_funcs, settled, output);
                    },
                }
                fuel = fuel - 1;
            }
            Err(FfiError::Message("name lookup limit exceeded".to_owned()))
        },
        settled => emit(ext_funcs, settled, first_out),
    }
}

/// An interpreter run: a compiled program bound to its declared input names
/// and external function names.
#[derive(Debug)]
pub struct Run {
    /// The compiled engine run.
    engine: monty::MontyRun,
    /// The declared input variable names, fixing the start arity.
    input_names: Vec<String>,
    /// The declared external function names; a suspended lookup of one of
    /// these resolves to a callable whose calls surface as events.
    ext_funcs: Vec<String>,
}

impl Run {
    /// The declared input names.
    pub closed spec fn input_names_spec(&self) -> Seq<String> {
        self.input_names@
    }

    /// The declared external function names.
    pub closed spec fn ext_funcs_spec(&self) -> Seq<String> {
        self.ext_funcs@
    }

    /// Compiles a program into a run bound to the given declared input
    /// names and external function names. Fails with a data error exactly
    /// when the engine rejects the program.
    pub fn new(
        code: String,
        script_name: String,
        input_names: Vec<String>,
        ext_funcs: Vec<String>,
    ) -> (r: Result<Run, FfiError>)
        ensures
            (r is Ok <==> crate::engine::compiles(
                code@,
                script_name@,
                crate::value::strings_model(input_names),
            )),
            (r matches Ok(run) ==> run.input_names_spec() == input_names@
                && run.ext_funcs_spec() == ext_funcs@),
    {
        let names = copy_strings(&input_names);
        proof {
            assert(crate::value::strings_model(names) =~= crate::value::strings_model(
                input_names,
            ));
        }
        match engine_new(code, &script_name, names) {
            Ok(engine) => Ok(Run { engine, input_names, ext_funcs }),
            Err(e) => Err(FfiError::Message(e)),
        }
    }

    /// The number of inputs `start` requires.
    pub fn input_arity(&self) -> (r: usize)
        ensures
            r == self.input_names_spec().len(),
    {
        self.input_names.len()
    }

    /// Starts the run with the given inputs.
    ///
    /// An input list whose length differs from the declared input names is
    /// rejected with a validation error before the engine runs at all; the
    /// run itself is left untouched and may be started again.
    pub fn start(&self, inputs: Vec<MontyValue>) -> (r: Result<StepEvent, FfiError>)
        ensures
            inputs@.len() != self.input_names_spec().len() ==> (r matches Err(e)
                && e is Message),
            (r matches Ok(ev) ==> event_consistent(ev)),
    {
        if inputs.len() != self.input_names.len() {
            return Err(
                FfiError::Message(
                    "wrong number of inputs for the run's declared input names".to_owned(),
                ),
            );
        }
        let (step, out) = engine_start(&self.engine, inputs);
        drive(copy_strings(&self.ext_funcs), step, out)
    }
}


// ---------------------------------------------------------------------------
// Persistence
// ---------------------------------------------------------------------------

/// Frames bookkeeping around an engine image produced by a trusted dump.
fn dump_with(kind: u32, ids: &Vec<u32>, names: &Vec<String>, blob: &Vec<u8>) -> (r: Result<
    Vec<u8>,
    FfiError,
>)
    ensures
        (r matches Ok(b) ==> crate::persist::meta_ok(ids@, crate::persist::codes_model(names@))
            && crate::persist::meta_tokens(
            kind,
            ids@,
            crate::persist::codes_model(names@),
        ).len() <= 0xffff_ffff && blob@.len() <= 0xffff_ffff && b@ == crate::persist::frame(
            crate::persist::meta_tokens(kind, ids@, crate::persist::codes_model(names@)),
            blob@,
        )),
{
    match crate::persist::meta_to_tokens(kind, ids, names) {
        Ok(ts) => match crate::persist::build_frame(&ts, blob) {
            Ok(b) => Ok(b),
            Err(e) => Err(e),
        },
        Err(e) => Err(e),
    }
}

impl Continuation {
    /// The declared external function names this continuation carries.
    pub closed spec fn ext_names(&self) -> Seq<String> {
        self.ext_funcs@
    }

    /// The frame kind of this continuation's image: a suspended function
    /// call or a suspended OS call.
    pub closed spec fn image_kind(&self) -> u32 {
        match self.inner {
            Some(EngineSuspend::Fn(_)) => 1u32,
            Some(EngineSuspend::Os(_)) => 2u32,
            None => 0u32,
        }
    }

    /// Serializes this continuation to an opaque binary image: verified
    /// framing around the engine's own suspended-state serialization. The
    /// image is exactly the frame of this continuation's kind and external
    /// function names around an engine image that loads again, so `load`
    /// accepts it. A consumed continuation has no state left to persist.
    pub fn dump(&self) -> (r: Result<Vec<u8>, FfiError>)
        ensures
            self.consumed() ==> (r matches Err(e) && e is Usage),
            (r matches Ok(b) ==> !self.consumed() && crate::persist::meta_ok(
                Seq::<u32>::empty(),
                crate::persist::codes_model(self.ext_names()),
            ) && crate::persist::meta_tokens(
                self.image_kind(),
                Seq::<u32>::empty(),
                crate::persist::codes_model(self.ext_names()),
            ).len() <= 0xffff_ffff && (exists|bl: Seq<u8>|
                bl.len() <= 0xffff_ffff && ((self.image_kind() == 1
                    && crate::engine::call_image_ok(bl)) || (self.image_kind() == 2
                    && crate::engine::os_image_ok(bl))) && b@ == crate::persist::frame(
                    crate::persist::meta_tokens(
                        self.image_kind(),
                        Seq::<u32>::empty(),
                        crate::persist::codes_model(self.ext_names()),
                    ),
                    bl,
                ))),
    {
        let ids: Vec<u32> = Vec::new();
        assert(ids@ =~= Seq::<u32>::empty());
        match &self.inner {
            None => Err(FfiError::Usage("cannot persist a consumed continuation".to_owned())),
            Some(EngineSuspend::Fn(snap)) => match crate::engine::engine_call_dump(snap) {
                Ok(bl) => {
                    let r = dump_with(1, &ids, &self.ext_funcs, &bl);
                    proof {
                        if let Ok(b) = &r {
                            assert(bl@.len() <= 0xffff_ffff && self.image_kind() == 1
                                && crate::engine::call_image_ok(bl@) && b@
                                == crate::persist::frame(
                                crate::persist::meta_tokens(
                                    self.image_kind(),
                                    Seq::<u32>::empty(),
                                    crate::persist::codes_model(self.ext_names()),
                                ),
                                bl@,
                            ));
                        }
                    }
                    r
                },
                Err(e) => Err(FfiError::Message(e)),
            },
            Some(EngineSuspend::Os(snap)) => match crate::engine::engine_os_dump(snap) {
                Ok(bl) => {
                    let r = dump_with(2, &ids, &self.ext_funcs, &bl);
                    proof {
                        if let Ok(b) = &r {
                            assert(bl@.len() <= 0xffff_ffff && self.image_kind() == 2
                                && crate::engine::os_image_ok(bl@) && b@
                                == crate::persist::frame(
                                crate::persist::meta_tokens(
                                    self.image_kind(),
                                    Seq::<u32>::empty(),
                                    crate::persist::codes_model(self.ext_names()),
                                ),
                                bl@,
                            ));
                        }
                    }
                    r
                },
                Err(e) => Err(FfiError::Message(e)),
            },
        }
    }

    /// Reconstructs a continuation from a persisted image. Succeeds
    /// exactly where the bytes are a frame whose bookkeeping parses with a
    /// suspended-call kind and whose engine image loads; a truncated,
    /// foreign or mismatched image is rejected with a decode error. The
    /// result is a fresh, unconsumed continuation carrying the image's
    /// declared external function names.
    pub fn load(bytes: &Vec<u8>) -> (r: Result<Continuation, FfiError>)
        ensures
            (r is Ok <==> (crate::persist::parse_frame(bytes@) matches Some(p)
                && crate::persist::parse_meta(p.0) matches Some(m)
                && crate::persist::codes_ok(m.2) && ((m.0 == 1
                && crate::engine::call_image_ok(p.1)) || (m.0 == 2
                && crate::engine::os_image_ok(p.1))))),
            (r matches Ok(c) ==> !c.consumed()),
            (r matches Ok(c) ==> crate::persist::parse_frame(bytes@) matches Some(p)
                && crate::persist::parse_meta(p.0) matches Some(m) && (m.0 == 1 || m.0 == 2)
                && m.2 == crate::persist::codes_model(c.ext_names())),
    {
        let (ts, blob) = match crate::persist::split_frame(bytes) {
            Ok(p) => p,
            Err(e) => {
                return Err(e);
            },
        };
        let (kind, _ids, names) = match crate::persist::tokens_to_meta(&ts) {
            Ok(m) => m,
            Err(e) => {
                return Err(e);
            },
        };
        if kind == 1 {
            match crate::engine::engine_call_load(&blob) {
                Ok(snap) => {
                    let c = Continuation { inner: Some(EngineSuspend::Fn(snap)), ext_funcs: names };
                    proof {
                        assert(crate::persist::parse_frame(bytes@) == Some((ts@, blob@))
                            && crate::persist::parse_meta(ts@) == Some(
                            (kind, _ids@, crate::persist::codes_model(c.ext_names())),
                        ) && kind == 1);
                    }
                    Ok(c)
                },
                Err(e) => Err(FfiError::Message(e)),
            }
        } else if kind == 2 {
            match crate::engine::engine_os_load(&blob) {
                Ok(snap) => {
                    let c = Continuation { inner: Some(EngineSuspend::Os(snap)), ext_funcs: names };
                    proof {
                        assert(crate::persist::parse_frame(bytes@) == Some((ts@, blob@))
                            && crate::persist::parse_meta(ts@) == Some(
                            (kind, _ids@, crate::persist::codes_model(c.ext_names())),
                        ) && kind == 2);
                    }
                    Ok(c)
                },
                Err(e) => Err(FfiError::Message(e)),
            }
        } else {
            Err(FfiError::Message("image kind mismatch".to_owned()))
        }
    }
}

impl MultiContinuation {
    /// The declared external function names this continuation carries.
    pub closed spec fn ext_names(&self) -> Seq<String> {
        self.ext_funcs@
    }

    /// Serializes this continuation to an opaque binary image, pending
    /// call identifiers included: exactly the frame of those identifiers
    /// and the external function names around an engine image that loads
    /// again as an await state.
    pub fn dump(&self) -> (r: Result<Vec<u8>, FfiError>)
        ensures
            self.consumed() ==> (r matches Err(e) && e is Usage),
            (r matches Ok(b) ==> !self.consumed() && crate::persist::meta_ok(
                self.pending_ids(),
                crate::persist::codes_model(self.ext_names()),
            ) && crate::persist::meta_tokens(
                3u32,
                self.pending_ids(),
                crate::persist::codes_model(self.ext_names()),
            ).len() <= 0xffff_ffff && (exists|bl: Seq<u8>|
                bl.len() <= 0xffff_ffff && crate::engine::futures_image(bl) is Some && b@
                    == crate::persist::frame(
                    crate::persist::meta_tokens(
                        3u32,
                        self.pending_ids(),
                        crate::persist::codes_model(self.ext_names()),
                    ),
                    bl,
                ))),
    {
        match &self.inner {
            None => Err(FfiError::Usage("cannot persist a consumed continuation".to_owned())),
            Some(snap) => match crate::engine::engine_futures_dump(snap) {
                Ok(bl) => {
                    let r = dump_with(3, &self.pending, &self.ext_funcs, &bl);
                    proof {
                        if let Ok(b) = &r {
                            assert(bl@.len() <= 0xffff_ffff
                                && crate::engine::futures_image(bl@) is Some && b@
                                == crate::persist::frame(
                                crate::persist::meta_tokens(
                                    3u32,
                                    self.pending_ids(),
                                    crate::persist::codes_model(self.ext_names()),
                                ),
                                bl@,
                            ));
                        }
                    }
                    r
                },
                Err(e) => Err(FfiError::Message(e)),
            },
        }
    }

    /// Reconstructs a multi-pending continuation from a persisted image,
    /// restoring the pending-call bookkeeping. Succeeds exactly where the
    /// bytes are a frame whose bookkeeping parses with the await-state
    /// kind, whose engine image loads, and whose stored pending
    /// identifiers agree with that engine state.
    pub fn load(bytes: &Vec<u8>) -> (r: Result<MultiContinuation, FfiError>)
        ensures
            (r is Ok <==> (crate::persist::parse_frame(bytes@) matches Some(p)
                && crate::persist::parse_meta(p.0) matches Some(m)
                && crate::persist::codes_ok(m.2) && m.0 == 3
                && crate::engine::futures_image(p.1) == Some(m.1))),
            (r matches Ok(c) ==> !c.consumed()),
            (r matches Ok(c) ==> crate::persist::parse_frame(bytes@) matches Some(p)
                && crate::persist::parse_meta(p.0) matches Some(m) && m.0 == 3
                && m.1 == c.pending_ids() && m.2 == crate::persist::codes_model(
                c.ext_names(),
            )),
    {
        let (ts, blob) = match crate::persist::split_frame(bytes) {
            Ok(p) => p,
            Err(e) => {
                return Err(e);
            },
        };
        let (kind, ids, names) = match crate::persist::tokens_to_meta(&ts) {
            Ok(m) => m,
            Err(e) => {
                return Err(e);
            },
        };
        if kind != 3 {
            return Err(FfiError::Message("image kind mismatch".to_owned()));
        }
        match crate::engine::engine_futures_load(&blob) {
            Ok((snap, engine_ids)) => {
                if engine_ids.len() != ids.len() {
                    return Err(FfiError::Message("image pending identifiers mismatch".to_owned()));
                }
                let mut i: usize = 0;
                while i < ids.len()
                    invariant
                        i <= ids.len(),
                        engine_ids@.len() == ids@.len(),
                        forall|t: int| 0 <= t < i ==> #[trigger] ids@[t] == engine_ids@[t],
                        crate::persist::parse_frame(bytes@) == Some((ts@, blob@)),
                        crate::persist::parse_meta(ts@) == Some(
                            (kind, ids@, crate::persist::codes_model(names@)),
                        ),
                        kind == 3,
                        crate::engine::futures_image(blob@) == Some(engine_ids@),
                    decreases ids.len() - i,
                {
                    if ids[i] != engine_ids[i] {
                        assert(ids@ != engine_ids@);
                        return Err(
                            FfiError::Message("image pending identifiers mismatch".to_owned()),
                        );
                    }
                    i = i + 1;
                }
                assert(ids@ =~= engine_ids@);
                Ok(MultiContinuation { inner: Some(snap), pending: ids, ext_funcs: names })
            },
            Err(e) => Err(FfiError::Message(e)),
        }
    }
}

impl Run {
    /// Serializes this run to an opaque binary image: exactly the frame of
    /// the declared input-name count, the input and external function
    /// names, and an engine image that loads again as a compiled run, so
    /// `load` accepts it.
    pub fn dump(&self) -> (r: Result<Vec<u8>, FfiError>)
        ensures
            (r matches Ok(b) ==> self.input_names_spec().len() <= 0xffff_ffff
                && crate::persist::meta_ok(
                seq![self.input_names_spec().len() as u32],
                crate::persist::codes_model(self.input_names_spec() + self.ext_funcs_spec()),
            ) && crate::persist::meta_tokens(
                4u32,
                seq![self.input_names_spec().len() as u32],
                crate::persist::codes_model(self.input_names_spec() + self.ext_funcs_spec()),
            ).len() <= 0xffff_ffff && (exists|bl: Seq<u8>|
                bl.len() <= 0xffff_ffff && crate::engine::run_image_ok(bl) && b@
                    == crate::persist::frame(
                    crate::persist::meta_tokens(
                        4u32,
                        seq![self.input_names_spec().len() as u32],
                        crate::persist::codes_model(
                            self.input_names_spec() + self.ext_funcs_spec(),
                        ),
                    ),
                    bl,
                ))),
    {
        if self.input_names.len() > 0xffff_ffff {
            return Err(FfiError::Message("too many entries to frame".to_owned()));
        }
        let mut ids: Vec<u32> = Vec::new();
        ids.push(self.input_names.len() as u32);
        assert(ids@ =~= seq![self.input_names_spec().len() as u32]);
        let mut names = copy_strings(&self.input_names);
        let mut i: usize = 0;
        while i < self.ext_funcs.len()
            invariant
                i <= self.ext_funcs@.len(),
                names@ =~= self.input_names@ + self.ext_funcs@.take(i as int),
            decreases self.ext_funcs@.len() - i,
        {
            names.push(self.ext_funcs[i].clone());
            assert(names@ =~= self.input_names@ + self.ext_funcs@.take(i + 1 as int));
            i = i + 1;
        }
        assert(names@ =~= self.input_names@ + self.ext_funcs@);
        match crate::engine::engine_run_dump(&self.engine) {
            Ok(bl) => {
                let r = dump_with(4, &ids, &names, &bl);
                proof {
                    if let Ok(b) = &r {
                        assert(bl@.len() <= 0xffff_ffff && crate::engine::run_image_ok(bl@)
                            && b@ == crate::persist::frame(
                            crate::persist::meta_tokens(
                                4u32,
                                seq![self.input_names_spec().len() as u32],
                                crate::persist::codes_model(
                                    self.input_names_spec() + self.ext_funcs_spec(),
                                ),
                            ),
                            bl@,
                        ));
                    }
                }
                r
            },
            Err(e) => Err(FfiError::Message(e)),
        }
    }

    /// Reconstructs a run from a persisted image, restoring its declared
    /// input names and external function names. Succeeds exactly where the
    /// bytes are a frame whose bookkeeping parses with the run kind, a
    /// single input-name count that fits the name list, and an engine
    /// image that loads as a compiled run.
    #[verifier::rlimit(100)]
    #[verifier::spinoff_prover]
    pub fn load(bytes: &Vec<u8>) -> (r: Result<Run, FfiError>)
        ensures
            (r is Ok <==> (crate::persist::parse_frame(bytes@) matches Some(p)
                && crate::persist::parse_meta(p.0) matches Some(m)
                && crate::persist::codes_ok(m.2) && m.0 == 4 && m.1.len() == 1 && (m.1[0] as int)
                <= m.2.len() && crate::engine::run_image_ok(p.1))),
            (r matches Ok(run) ==> crate::persist::parse_frame(bytes@) matches Some(p)
                && crate::persist::parse_meta(p.0) matches Some(m) && m.0 == 4
                && m.2 == crate::persist::codes_model(
                run.input_names_spec() + run.ext_funcs_spec(),
            )),
    {
        let (ts, blob) = match crate::persist::split_frame(bytes) {
            Ok(p) => p,
            Err(e) => {
                return Err(e);
            },
        };
        let (kind, ids, names) = match crate::persist::tokens_to_meta(&ts) {
            Ok(m) => m,
            Err(e) => {
                return Err(e);
            },
        };
        if kind != 4 || ids.len() != 1 {
            return Err(FfiError::Message("image kind mismatch".to_owned()));
        }
        let n32 = ids[0];
        let n = n32 as usize;
        if n > names.len() {
            return Err(FfiError::Message("image length mismatch".to_owned()));
        }
        let mut input_names: Vec<String> = Vec::new();
        let mut i: usize = 0;
        while i < n
            invariant
                i <= n,
                n <= names@.len(),
                input_names@ =~= names@.take(i as int),
            decreases n - i,
        {
            input_names.push(names[i].clone());
            assert(input_names@ =~= names@.take(i + 1 as int));
            i = i + 1;
        }
        let mut ext_funcs: Vec<String> = Vec::new();
        let mut j = n;
        while j < names.len()
            invariant
                n <= j <= names@.len(),
                input_names@ =~= names@.take(n as int),
                ext_funcs@ =~= names@.subrange(n as int, j as int),
            decreases names@.len() - j,
        {
            ext_funcs.push(names[j].clone());
            assert(ext_funcs@ =~= names@.subrange(n as int, j + 1 as int));
            j = j + 1;
        }
        proof {
            assert(input_names@ + ext_funcs@ =~= names@);
        }
        match crate::engine::engine_run_load(&blob) {
            Ok(engine) => {
                let run = Run { engine, input_names, ext_funcs };
                proof {
                    assert(run.input_names_spec() + run.ext_funcs_spec() =~= names@);
                    assert(crate::persist::parse_frame(bytes@) == Some((ts@, blob@))
                        && crate::persist::parse_meta(ts@) == Some(
                        (
                            4u32,
                            ids@,
                            crate::persist::codes_model(
                                run.input_names_spec() + run.ext_funcs_spec(),
                            ),
                        ),
                    ));
                }
                Ok(run)
            },
            Err(e) => Err(FfiError::Message(e)),
        }
    }
}


// ---------------------------------------------------------------------------
// Result batches
// ---------------------------------------------------------------------------

/// Whether a batch entry's optional `result` field is acceptable: absent
/// or null means still pending; anything else must decode as a value.
pub open spec fn future_result_ok(es: Seq<(Seq<char>, WireModel)>) -> bool {
    match obj_get(es, "result"@) {
        Some(WireModel::Null) => true,
        Some(res) => crate::codec::dec(res) is Some,
        None => true,
    }
}

/// What a batch entry's `result` field resumes its call with.
pub open spec fn future_result_matches(es: Seq<(Seq<char>, WireModel)>, inp: ResumeInput) -> bool {
    match obj_get(es, "result"@) {
        Some(WireModel::Null) => inp is StillPending,
        Some(res) => (inp matches ResumeInput::Return(v) && crate::codec::dec(res) == Some(v@)),
        None => inp is StillPending,
    }
}

/// Whether one batch entry is well-shaped: an object whose `call_id` is an
/// unsigned integer fitting `u32`; an `error` field, where present, a
/// string or null; a non-empty error needs nothing more, otherwise the
/// `result` field must be acceptable.
pub open spec fn future_entry_ok(w: WireModel) -> bool {
    match w {
        WireModel::Obj(es) => match crate::codec::dec_u64_field(obj_get(es, "call_id"@)) {
            Some(u) => u <= 0xffff_ffff && match obj_get(es, "error"@) {
                Some(WireModel::Text(msg)) => msg.len() > 0 || future_result_ok(es),
                Some(WireModel::Null) => future_result_ok(es),
                Some(_) => false,
                None => future_result_ok(es),
            },
            None => false,
        },
        _ => false,
    }
}

/// What one well-shaped batch entry resumes: its call identifier, and a
/// failure for a non-empty error, else what the result field says.
pub open spec fn future_entry_matches(w: WireModel, e: (u32, ResumeInput)) -> bool {
    match w {
        WireModel::Obj(es) => {
            &&& crate::codec::dec_u64_field(obj_get(es, "call_id"@)) == Some(e.0 as u64)
            &&& match obj_get(es, "error"@) {
                Some(WireModel::Text(msg)) => if msg.len() > 0 {
                    (e.1 matches ResumeInput::Fail(m) && m@ == msg)
                } else {
                    future_result_matches(es, e.1)
                },
                _ => future_result_matches(es, e.1),
            }
        },
        _ => false,
    }
}

/// One rejected entry refutes the all-entries condition of the parsed
/// batch array.
proof fn future_reject(json: Seq<char>, es: Seq<WireModel>, i: int)
    requires
        crate::wire::wire_parse(json) == Some(WireModel::Arr(es)),
        0 <= i < es.len(),
        !future_entry_ok(es[i]),
    ensures
        (crate::wire::wire_parse(json) matches Some(w) ==> (w matches WireModel::Arr(xs) ==> !(
        forall|j: int| 0 <= j < xs.len() ==> future_entry_ok(#[trigger] xs[j])))),
{
    if let Some(WireModel::Arr(xs)) = crate::wire::wire_parse(json) {
        assert(xs == es);
        assert(!future_entry_ok(xs[i]));
    }
}

/// Decodes a batch entry's `result` field into a resume input.
fn future_result_input(eobj: &Vec<Entry>) -> (r: Result<ResumeInput, FfiError>)
    ensures
        (r is Ok <==> future_result_ok(wmodel_entries(*eobj))),
        (r matches Ok(inp) ==> future_result_matches(wmodel_entries(*eobj), inp)),
    decreases *eobj,
{
    match crate::decode::obj_find(eobj, "result") {
        Some(k) => match &eobj[k].value {
            JsonValue::Null => Ok(ResumeInput::StillPending),
            other => match other.decode_wire() {
                Ok(v) => Ok(ResumeInput::Return(v)),
                Err(e) => Err(e),
            },
        },
        None => Ok(ResumeInput::StillPending),
    }
}

/// Decodes a batch of keyed results for resuming a multi-pending
/// continuation: a JSON array of objects, each with a `call_id`, an
/// optional `error` string and an optional `result` value. A non-empty
/// error resumes that call as failed, a present non-null result resumes it
/// with the decoded value, and otherwise the call stays pending.
#[verifier::rlimit(100)]
#[verifier::spinoff_prover]
pub fn decode_future_results(json: &str) -> (r: Result<Vec<(u32, ResumeInput)>, FfiError>)
    ensures
        (r matches Ok(v) ==> (crate::wire::wire_parse(json@) matches Some(w) && w matches
        WireModel::Arr(xs) && v@.len() == xs.len() && (forall|i: int|
            0 <= i < xs.len() ==> future_entry_matches(#[trigger] xs[i], v@[i])))),
        (crate::wire::wire_parse(json@) matches Some(w) ==> (w matches WireModel::Arr(xs) ==> (
        r is Err ==> !(forall|i: int|
            0 <= i < xs.len() ==> future_entry_ok(#[trigger] xs[i]))))),
{
    let tree = match crate::wire::parse_wire(json) {
        Ok(t) => t,
        Err(e) => {
            return Err(FfiError::Message(e));
        },
    };
    let ghost tm = tree@;
    let entries: &Vec<JsonValue> = match &tree {
        JsonValue::Arr(xs) => xs,
        _ => {
            return Err(FfiError::Message("expected JSON array of results".to_owned()));
        },
    };
    let ghost es = wmodel_seq(*entries);
    proof {
        assert(tm == WireModel::Arr(es));
    }
    let mut out: Vec<(u32, ResumeInput)> = Vec::new();
    let mut i: usize = 0;
    while i < entries.len()
        invariant
            i <= entries.len(),
            out@.len() == i,
            es == wmodel_seq(*entries),
            es.len() == entries@.len(),
            crate::wire::wire_parse(json@) == Some(WireModel::Arr(es)),
            forall|j: int| 0 <= j < i ==> future_entry_matches(#[trigger] es[j], out@[j]),
        decreases entries.len() - i,
    {
        proof {
            assert(es[i as int] == wmodel(entries@[i as int]));
        }
        let eobj: &Vec<Entry> = match &entries[i] {
            JsonValue::Obj(eo) => eo,
            _ => {
                proof {
                    assert(!(es[i as int] is Obj));
                    assert(!future_entry_ok(es[i as int]));
                    future_reject(json@, es, i as int);
                    assert(crate::wire::wire_parse(json@) == Some(WireModel::Arr(es)));
                }
                return Err(FfiError::Message("result entry must be an object".to_owned()));
            },
        };
        let ghost em = wmodel_entries(*eobj);
        proof {
            assert(es[i as int] == WireModel::Obj(em));
        }
        let cid_u64: u64 = match crate::decode::obj_find(eobj, "call_id") {
            Some(k) => match &eobj[k].value {
                JsonValue::Int(x) => {
                    if *x >= 0 {
                        *x as u64
                    } else {
                        proof {
                            assert(crate::codec::dec_u64_field(
                                obj_get(em, "call_id"@),
                            ) is None);
                            assert(!future_entry_ok(es[i as int]));
                            future_reject(json@, es, i as int);
                        }
                        return Err(FfiError::Message("result entry missing call_id".to_owned()));
                    }
                },
                JsonValue::Uint(u) => *u,
                _ => {
                    proof {
                        future_reject(json@, es, i as int);
                    }
                    return Err(FfiError::Message("result entry missing call_id".to_owned()));
                },
            },
            None => {
                proof {
                    future_reject(json@, es, i as int);
                }
                return Err(FfiError::Message("result entry missing call_id".to_owned()));
            },
        };
        if cid_u64 > 0xffff_ffff {
            proof {
                future_reject(json@, es, i as int);
            }
            return Err(FfiError::Message("call_id out of range".to_owned()));
        }
        let cid = cid_u64 as u32;
        let input: ResumeInput = match crate::decode::obj_find(eobj, "error") {
            Some(k) => match &eobj[k].value {
                JsonValue::Text(msg) => {
                    if msg.as_str().unicode_len() > 0 {
                        ResumeInput::Fail(msg.clone())
                    } else {
                        match future_result_input(eobj) {
                            Ok(inp) => inp,
                            Err(e) => {
                                proof {
                                    future_reject(json@, es, i as int);
                                }
                                return Err(e);
                            },
                        }
                    }
                },
                JsonValue::Null => match future_result_input(eobj) {
                    Ok(inp) => inp,
                    Err(e) => {
                        proof {
                            future_reject(json@, es, i as int);
                        }
                        return Err(e);
                    },
                },
                _ => {
                    proof {
                        future_reject(json@, es, i as int);
                    }
                    return Err(FfiError::Message("result entry error must be text".to_owned()));
                },
            },
            None => match future_result_input(eobj) {
                Ok(inp) => inp,
                Err(e) => {
                    proof {
                        future_reject(json@, es, i as int);
                    }
                    return Err(e);
                },
            },
        };
        proof {
            assert(future_entry_matches(es[i as int], (cid, input)));
        }
        out.push((cid, input));
        i = i + 1;
    }
    Ok(out)
}

} // verus!
