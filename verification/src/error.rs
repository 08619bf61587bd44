//! Error type shared by the codec, the protocol layer and the boundary glue.

use vstd::prelude::*;

verus! {

/// The error taxonomy of the crate.
///
/// `Message` carries data errors: malformed wire text, a rejected payload, or
/// an error raised by the interpreter engine. `Usage` carries protocol-usage
/// errors (a continuation resumed twice), kept distinct so a caller can tell
/// bad data from bad protocol use. `NullPointer`, `InvalidUtf8` and
/// `InteriorNul` report faults in raw boundary input and are produced by the
/// foreign-function glue around this library.
#[derive(Debug)]
pub enum FfiError {
    /// A data error, described in human-readable form.
    Message(String),
    /// A null pointer was passed for the named field.
    NullPointer(String),
    /// The named field held bytes that are not valid UTF-8.
    InvalidUtf8(String),
    /// The named field held a string with interior NUL bytes.
    InteriorNul(String),
    /// A protocol-usage error: the operation was valid on some earlier state
    /// of the value it was applied to, but not on its current state.
    Usage(String),
}

impl FfiError {
    /// True iff this error reports protocol misuse rather than bad data.
    pub fn is_usage(&self) -> (r: bool)
        ensures
            r == (self is Usage),
    {
        match self {
            FfiError::Usage(_) => true,
            _ => false,
        }
    }

    /// A human-readable rendering of the error.
    pub fn message(&self) -> (r: String)
        ensures
            (self is Message ==> r@ == self->Message_0@),
            (self is Usage ==> r@ == self->Usage_0@),
    {
        match self {
            FfiError::Message(m) => m.clone(),
            FfiError::NullPointer(f) => {
                let mut s = "null pointer for ".to_owned();
                s.append(f.as_str());
                s
            },
            FfiError::InvalidUtf8(f) => {
                let mut s = f.clone();
                s.append(" is not valid UTF-8");
                s
            },
            FfiError::InteriorNul(f) => {
                let mut s = "string for ".to_owned();
                s.append(f.as_str());
                s.append(" contains interior NUL bytes");
                s
            },
            FfiError::Usage(m) => m.clone(),
        }
    }
}

} // verus!
