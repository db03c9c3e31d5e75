//! The error of the library: a state that the C library failed to create.

use vstd::prelude::*;

verus! {

/// Errors reported when a processing state cannot be created.
#[derive(Clone, Copy, Debug, PartialEq, Eq, Structural)]
pub enum Error {
    /// The C library returned no state.
    FailedInit,
}

/// The text that describes an error to a user.
pub open spec fn error_text(e: Error) -> Seq<char> {
    match e {
        Error::FailedInit => "Failed to initialize"@,
    }
}

impl Error {
    /// The user-facing description of the error.
    pub fn message(&self) -> (s: String)
        ensures
            s@ == error_text(*self),
    {
        match self {
            Error::FailedInit => "Failed to initialize".to_owned(),
        }
    }
}

/// Turns what a state constructor of the C library handed back into the
/// result of the constructor: the state where there is one, `FailedInit`
/// where the library gave none (a null pointer).
pub fn init_result<T>(state: Option<T>) -> (r: Result<T, Error>)
    ensures
        match state {
            Some(s) => r == Ok::<T, Error>(s),
            None => r == Err::<T, Error>(Error::FailedInit),
        },
{
    match state {
        Some(s) => Ok(s),
        None => Err(Error::FailedInit),
    }
}

} // verus!
