//! Host-side core for driving an embedded `monty` interpreter step by step.
//!
//! The crate pairs a canonical, lossless JSON codec for the interpreter's
//! dynamic value model with a state machine that turns one interpreter step
//! into a discrete event carrying a resumable continuation, plus binary
//! persistence for runs and continuations.

pub mod engine;
pub mod error;
pub mod persist;
pub mod protocol;
pub mod exc;
pub mod value;
pub mod wire;
pub mod codec;
pub mod decode;
pub mod encode;

pub use error::FfiError;
