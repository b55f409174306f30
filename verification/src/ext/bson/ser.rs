//! The error of conversions into wire values.

use vstd::prelude::*;
use vstd::std_specs::convert::FromSpecImpl;
use std::convert::Infallible;

verus! {

/// A conversion into a wire value failed, for the reason given in the message.
#[derive(Debug, PartialEq, Eq)]
pub struct Error(pub String);

impl Error {
    /// An error with the given message.
    pub fn custom(message: String) -> (e: Error)
        ensures
            e.0 == message,
    {
        Error(message)
    }

    /// The message of the error.
    pub fn message(&self) -> (m: String)
        ensures
            m@ == self.0@,
    {
        self.0.clone()
    }
}

/// A conversion that cannot fail has no error to carry over: there is no
/// value to call this with.
impl From<Infallible> for Error {
    fn from(_never: Infallible) -> (e: Error) {
        Error(String::new())
    }
}

impl FromSpecImpl<Infallible> for Error {
    open spec fn obeys_from_spec() -> bool {
        false
    }

    open spec fn from_spec(_never: Infallible) -> Error {
        arbitrary()
    }
}

} // verus!
