//! The error values returned by the validators and loaders of this crate.
use vstd::prelude::*;
use vstd::string::StringExecFns;

verus! {

/// The stable kernel name of a privileged capability, such as
/// `plugin.audio.wasm`.
#[derive(Clone, Debug, PartialEq, Eq)]
pub struct CapabilityName {
    /// The dotted capability name.
    pub name: String,
}

impl CapabilityName {
    /// Builds a capability name from its dotted text.
    pub fn new(name: &str) -> (res: CapabilityName)
        ensures
            res.name@ == name@,
    {
        CapabilityName { name: String::from_str(name) }
    }
}

/// An error raised by a validator, a loader or a backend of this crate.
#[derive(Clone, Debug, PartialEq, Eq)]
pub enum Error {
    /// An evaluation error carrying a human-readable message.
    Eval(String),
    /// A value of one shape was expected and another was found.
    TypeMismatch {
        /// What the operation expected.
        expected: &'static str,
        /// What the operation found.
        found: &'static str,
    },
    /// A privileged operation was refused because its capability was not
    /// granted.
    CapabilityDenied {
        /// The capability that was missing.
        capability: CapabilityName,
    },
}

/// The text an error renders as.
pub open spec fn error_message(e: Error) -> Seq<char> {
    match e {
        Error::Eval(message) => message@,
        Error::TypeMismatch { expected, found } => "type mismatch: expected "@ + expected@
            + ", found "@ + found@,
        Error::CapabilityDenied { capability } => "capability denied: "@ + capability.name@,
    }
}

impl Error {
    /// Builds an evaluation error with the given message.
    pub fn eval(message: &str) -> (res: Error)
        ensures
            res == Error::Eval(res->Eval_0),
            res->Eval_0@ == message@,
    {
        Error::Eval(String::from_str(message))
    }

    /// Builds an evaluation error whose message is `head` followed by `tail`.
    pub fn eval2(head: &str, tail: &str) -> (res: Error)
        ensures
            res is Eval,
            res->Eval_0@ == head@ + tail@,
    {
        Error::Eval(String::from_str(head).concat(tail))
    }

    /// Builds an evaluation error whose message is `a`, `b` and `c` in turn.
    pub fn eval3(a: &str, b: &str, c: &str) -> (res: Error)
        ensures
            res is Eval,
            res->Eval_0@ == a@ + b@ + c@,
    {
        Error::Eval(String::from_str(a).concat(b).concat(c))
    }

    /// Renders the error as text.
    pub fn message(&self) -> (res: String)
        ensures
            res@ == error_message(*self),
    {
        match self {
            Error::Eval(message) => message.clone(),
            Error::TypeMismatch { expected, found } => String::from_str(
                "type mismatch: expected ",
            ).concat(expected).concat(", found ").concat(found),
            Error::CapabilityDenied { capability } => String::from_str(
                "capability denied: ",
            ).concat(capability.name.as_str()),
        }
    }
}

} // verus!
