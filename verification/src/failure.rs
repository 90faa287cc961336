//! Failures with what caused them.
//!
//! The message of a failure stands by itself. The text of the error that led to it, where there
//! was one, is kept beside it and not joined to it: whoever reports the failure decides whether
//! to show it.

use vstd::prelude::*;

verus! {

/// Why something could not be done.
#[derive(Debug)]
pub struct Failure {
    /// What could not be done.
    pub message: String,
    /// The error that led to it, where there was one.
    pub cause: Option<String>,
}

impl Failure {
    /// The failure has a message and a cause.
    pub open spec fn is(self, message: Seq<char>, cause: Option<Seq<char>>) -> bool {
        &&& self.message@ == message
        &&& match self.cause {
            Some(c) => cause == Some(c@),
            None => cause is None,
        }
    }

    /// A failure that nothing else led to.
    pub fn new(message: String) -> (r: Self)
        ensures
            r.is(message@, None),
    {
        Failure { message, cause: None }
    }

    /// A failure that an error led to.
    pub fn caused_by(message: String, cause: String) -> (r: Self)
        ensures
            r.is(message@, Some(cause@)),
    {
        Failure { message, cause: Some(cause) }
    }
}

} // verus!
