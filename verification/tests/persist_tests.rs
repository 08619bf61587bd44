//! Persistence behavior: run and continuation images round-trip, and
//! corrupt or foreign images are rejected with a decode error.

use monty_ffi::engine::ResumeInput;
use monty_ffi::protocol::{MultiContinuation, Run, StepEvent};
use monty_ffi::value::MontyValue;

fn new_run(code: &str, inputs: &[&str], exts: &[&str]) -> Run {
    Run::new(
        code.to_owned(),
        "main.py".to_owned(),
        inputs.iter().map(|s| s.to_string()).collect(),
        exts.iter().map(|s| s.to_string()).collect(),
    )
    .expect("compile")
}

#[test]
fn run_image_round_trips() {
    let run = new_run("x * 2", &["x"], &[]);
    let image = run.dump().expect("dump");
    let run2 = Run::load(&image).expect("load");
    assert_eq!(run2.input_arity(), 1);
    match run2.start(vec![MontyValue::Int(21)]).expect("start") {
        StepEvent::Complete { value, .. } => assert!(matches!(value, MontyValue::Int(42))),
        _ => panic!("expected completion"),
    }
}

#[test]
fn run_image_keeps_external_function_names() {
    let run = new_run("greet(\"x\")", &[], &["greet"]);
    let image = run.dump().expect("dump");
    let run2 = Run::load(&image).expect("load");
    match run2.start(Vec::new()).expect("start") {
        StepEvent::FunctionCall { name, .. } => assert_eq!(name, "greet"),
        _ => panic!("expected a function call"),
    }
}

#[test]
fn continuation_image_round_trips() {
    let run = new_run("fetch() + 1", &[], &["fetch"]);
    match run.start(Vec::new()).expect("start") {
        StepEvent::FunctionCall { continuation, .. } => {
            let image = continuation.dump().expect("dump");
            let mut revived = monty_ffi::protocol::Continuation::load(&image).expect("load");
            assert!(!revived.is_consumed());
            match revived.resume(ResumeInput::Return(MontyValue::Int(41))).expect("resume") {
                StepEvent::Complete { value, .. } => {
                    assert!(matches!(value, MontyValue::Int(42)));
                }
                _ => panic!("expected completion"),
            }
        }
        _ => panic!("expected a function call"),
    }
}

#[test]
fn multi_continuation_image_round_trips() {
    let code = "\
import asyncio\n\
async def main():\n    return await fetch()\n\
asyncio.run(main())";
    let run = new_run(code, &[], &["fetch"]);
    let mut event = run.start(Vec::new()).expect("start");
    loop {
        match event {
            StepEvent::FunctionCall { mut continuation, .. } => {
                event = continuation.resume(ResumeInput::StillPending).expect("pending");
            }
            StepEvent::ResolveFutures { pending_call_ids, continuation, .. } => {
                let image = continuation.dump().expect("dump");
                let mut revived = MultiContinuation::load(&image).expect("load");
                assert_eq!(revived.pending_call_ids(), pending_call_ids);
                match revived
                    .resume_batch(vec![
                        (pending_call_ids[0], ResumeInput::Return(MontyValue::Int(9))),
                    ])
                    .expect("resolve")
                {
                    StepEvent::Complete { value, .. } => {
                        assert!(matches!(value, MontyValue::Int(9)));
                        return;
                    }
                    _ => panic!("expected completion"),
                }
            }
            _ => panic!("expected suspension"),
        }
    }
}

#[test]
fn consumed_continuations_cannot_be_persisted() {
    let run = new_run("fetch()", &[], &["fetch"]);
    match run.start(Vec::new()).expect("start") {
        StepEvent::FunctionCall { mut continuation, .. } => {
            let _ = continuation.resume(ResumeInput::Return(MontyValue::NoneVal));
            let err = continuation.dump().unwrap_err();
            assert!(err.is_usage());
        }
        _ => panic!("expected a function call"),
    }
}

#[test]
fn corrupt_images_are_rejected() {
    // Garbage, empty, and wrong-magic images all fail to load.
    assert!(Run::load(&vec![1, 2, 3]).is_err());
    assert!(Run::load(&Vec::new()).is_err());
    let run = new_run("1", &[], &[]);
    let mut image = run.dump().expect("dump");
    image[0] = image[0].wrapping_add(1);
    assert!(Run::load(&image).is_err());
    // Truncation is detected.
    let mut image2 = run.dump().expect("dump");
    image2.truncate(image2.len() - 1);
    assert!(Run::load(&image2).is_err());
    // A run image does not load as a continuation.
    let image3 = run.dump().expect("dump");
    assert!(monty_ffi::protocol::Continuation::load(&image3).is_err());
    assert!(MultiContinuation::load(&image3).is_err());
}
