//! Protocol behavior against the real interpreter engine: start validation,
//! suspension events, continuation consumption and pending-id bookkeeping.

use monty_ffi::engine::ResumeInput;
use monty_ffi::protocol::{Run, StepEvent};
use monty_ffi::value::MontyValue;

fn new_run(code: &str, inputs: &[&str], exts: &[&str]) -> Run {
    Run::new(
        code.to_owned(),
        "main.py".to_owned(),
        inputs.iter().map(|s| s.to_string()).collect(),
        exts.iter().map(|s| s.to_string()).collect(),
    )
    .expect("compile")
}

#[test]
fn start_completes_simple_program() {
    let run = new_run("x + 1", &["x"], &[]);
    match run.start(vec![MontyValue::Int(41)]).expect("start") {
        StepEvent::Complete { value, .. } => assert!(matches!(value, MontyValue::Int(42))),
        _ => panic!("expected completion"),
    }
}

#[test]
fn start_with_wrong_arity_is_a_validation_error() {
    let run = new_run("x + y", &["x", "y"], &[]);
    let err = run.start(vec![MontyValue::Int(1)]).unwrap_err();
    assert!(!err.is_usage());
    assert!(err.message().contains("inputs"));
    // The run itself stays usable.
    match run.start(vec![MontyValue::Int(1), MontyValue::Int(2)]).expect("start") {
        StepEvent::Complete { value, .. } => assert!(matches!(value, MontyValue::Int(3))),
        _ => panic!("expected completion"),
    }
}

#[test]
fn compile_errors_are_reported() {
    let r = Run::new(
        "def (".to_owned(),
        "main.py".to_owned(),
        Vec::new(),
        Vec::new(),
    );
    assert!(r.is_err());
}

#[test]
fn external_function_call_round_trip() {
    let run = new_run("greet(\"world\")", &[], &["greet"]);
    let event = run.start(Vec::new()).expect("start");
    match event {
        StepEvent::FunctionCall { name, args, mut continuation, .. } => {
            assert_eq!(name, "greet");
            assert_eq!(args.len(), 1);
            assert!(matches!(&args[0], MontyValue::Str(s) if s == "world"));
            let next = continuation
                .resume(ResumeInput::Return(MontyValue::Str("hi world".to_owned())))
                .expect("resume");
            match next {
                StepEvent::Complete { value, .. } => {
                    assert!(matches!(&value, MontyValue::Str(s) if s == "hi world"));
                }
                _ => panic!("expected completion after resume"),
            }
        }
        StepEvent::Complete { value, .. } => {
            panic!(
                "expected a function call, program completed with {:?}",
                monty_ffi::encode::encode_object(&value)
            );
        }
        _ => panic!("expected a function call"),
    }
}

#[test]
fn resuming_a_consumed_continuation_is_a_usage_error() {
    let run = new_run("fetch()", &[], &["fetch"]);
    match run.start(Vec::new()).expect("start") {
        StepEvent::FunctionCall { mut continuation, .. } => {
            assert!(!continuation.is_consumed());
            let _ = continuation
                .resume(ResumeInput::Return(MontyValue::NoneVal))
                .expect("first resume");
            assert!(continuation.is_consumed());
            let again = continuation.resume(ResumeInput::Return(MontyValue::NoneVal));
            let err = again.unwrap_err();
            assert!(err.is_usage());
        }
        _ => panic!("expected a function call"),
    }
}

#[test]
fn resume_with_error_raises_in_program() {
    // The program catches the runtime error raised at the call site.
    let code = "\
try:\n    fetch()\n    r = \"no error\"\nexcept RuntimeError as e:\n    r = \"caught\"\nr";
    let run = new_run(code, &[], &["fetch"]);
    match run.start(Vec::new()).expect("start") {
        StepEvent::FunctionCall { mut continuation, .. } => {
            match continuation.resume(ResumeInput::Fail("boom".to_owned())).expect("resume") {
                StepEvent::Complete { value, .. } => {
                    assert!(matches!(&value, MontyValue::Str(s) if s == "caught"));
                }
                _ => panic!("expected completion"),
            }
        }
        _ => panic!("expected a function call"),
    }
}

fn drive_to_pending(code: &str) -> (Vec<u32>, monty_ffi::protocol::MultiContinuation, String) {
    let run = new_run(code, &[], &["fetch"]);
    let mut event = run.start(Vec::new()).expect("start");
    // Answer every external call with a still-pending future until the run
    // blocks awaiting resolution.
    loop {
        match event {
            StepEvent::FunctionCall { mut continuation, .. } => {
                event = continuation.resume(ResumeInput::StillPending).expect("resume pending");
            }
            StepEvent::ResolveFutures { pending_call_ids, continuation, .. } => {
                return (pending_call_ids, continuation, String::new());
            }
            StepEvent::Complete { value, .. } => panic!(
                "expected suspension, completed with {:?}",
                monty_ffi::encode::encode_object(&value)
            ),
            StepEvent::OsCall { .. } => panic!("unexpected os call"),
        }
    }
}

const ASYNC_ONE: &str = "\
import asyncio\n\
async def main():\n    return await fetch()\n\
asyncio.run(main())";

#[test]
fn empty_batch_keeps_the_same_pending_ids() {
    let (ids, mut cont, _) = drive_to_pending(ASYNC_ONE);
    assert_eq!(ids.len(), 1);
    assert_eq!(cont.pending_call_ids(), ids);
    // Empty batch: no progress, no error, same pending set.
    match cont.resume_batch(Vec::new()).expect("empty batch") {
        StepEvent::ResolveFutures { pending_call_ids, continuation: mut cont2, .. } => {
            assert_eq!(pending_call_ids, ids);
            assert!(cont.is_consumed());
            // Resolving the call completes the run.
            match cont2
                .resume_batch(vec![(ids[0], ResumeInput::Return(MontyValue::Int(7)))])
                .expect("resolve")
            {
                StepEvent::Complete { value, .. } => {
                    assert!(matches!(value, MontyValue::Int(7)));
                }
                _ => panic!("expected completion"),
            }
        }
        _ => panic!("expected the same pending state"),
    }
}

#[test]
fn unknown_call_id_is_rejected_without_consuming() {
    let (ids, mut cont, _) = drive_to_pending(ASYNC_ONE);
    let bogus = ids.iter().max().unwrap() + 1000;
    let err = cont
        .resume_batch(vec![(bogus, ResumeInput::Return(MontyValue::Int(1)))])
        .unwrap_err();
    assert!(!err.is_usage());
    assert!(!cont.is_consumed());
    // The continuation is still usable after the bad batch.
    match cont
        .resume_batch(vec![(ids[0], ResumeInput::Return(MontyValue::Int(5)))])
        .expect("resolve")
    {
        StepEvent::Complete { value, .. } => assert!(matches!(value, MontyValue::Int(5))),
        _ => panic!("expected completion"),
    }
}

#[test]
fn resume_batch_after_consumption_is_a_usage_error() {
    let (ids, mut cont, _) = drive_to_pending(ASYNC_ONE);
    let _ = cont
        .resume_batch(vec![(ids[0], ResumeInput::Return(MontyValue::NoneVal))])
        .expect("resolve");
    let err = cont.resume_batch(Vec::new()).unwrap_err();
    assert!(err.is_usage());
}

#[test]
fn printed_output_is_collected() {
    let run = new_run("print(\"hi\")\n0", &[], &[]);
    match run.start(Vec::new()).expect("start") {
        StepEvent::Complete { value, output } => {
            assert!(matches!(value, MontyValue::Int(0)));
            assert_eq!(output, "hi\n");
        }
        _ => panic!("expected completion"),
    }
}

#[test]
fn named_tuple_inputs_keep_their_names() {
    // A named record passed in comes back with its type name, field names
    // and values intact.
    let run = new_run("x", &["x"], &[]);
    let point = MontyValue::NamedTuple {
        ty_name: "Point".to_owned(),
        field_names: vec!["x".to_owned(), "y".to_owned()],
        values: vec![MontyValue::Int(1), MontyValue::Int(2)],
    };
    match run.start(vec![point]).expect("start") {
        StepEvent::Complete { value, output: _ } => match value {
            MontyValue::NamedTuple { ty_name, field_names, values } => {
                assert_eq!(ty_name, "Point");
                assert_eq!(field_names, vec!["x".to_owned(), "y".to_owned()]);
                assert_eq!(values.len(), 2);
                assert!(matches!(values[0], MontyValue::Int(1)));
                assert!(matches!(values[1], MontyValue::Int(2)));
            }
            other => panic!(
                "expected a named record back, got {:?}",
                monty_ffi::encode::encode_object(&other)
            ),
        },
        _ => panic!("expected completion"),
    }
}

#[test]
fn future_result_batches_decode() {
    let batch = monty_ffi::protocol::decode_future_results(
        "[{\"call_id\":1,\"result\":41},{\"call_id\":2,\"error\":\"boom\"},{\"call_id\":3}]",
    )
    .expect("decode");
    assert_eq!(batch.len(), 3);
    assert_eq!(batch[0].0, 1);
    assert!(matches!(&batch[0].1, ResumeInput::Return(MontyValue::Int(41))));
    assert_eq!(batch[1].0, 2);
    assert!(matches!(&batch[1].1, ResumeInput::Fail(m) if m == "boom"));
    assert_eq!(batch[2].0, 3);
    assert!(matches!(&batch[2].1, ResumeInput::StillPending));
    // An empty error string and a null result both mean still pending.
    let quiet = monty_ffi::protocol::decode_future_results(
        "[{\"call_id\":7,\"error\":\"\",\"result\":null}]",
    )
    .expect("decode");
    assert!(matches!(&quiet[0].1, ResumeInput::StillPending));
    // Malformed batches are data errors.
    assert!(monty_ffi::protocol::decode_future_results("{}").is_err());
    assert!(monty_ffi::protocol::decode_future_results("[{\"result\":1}]").is_err());
    assert!(monty_ffi::protocol::decode_future_results("[{\"call_id\":-1}]").is_err());
    assert!(monty_ffi::protocol::decode_future_results("[{\"call_id\":4294967296}]").is_err());
    assert!(monty_ffi::protocol::decode_future_results("not json").is_err());
}
