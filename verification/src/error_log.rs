//! The boundary between errors that are handed on and the one fatal error
//! that ends the program.

use vstd::prelude::*;
use vstd::string::*;

verus! {

/// The error that ends the program. It says nothing of the cause: the cause
/// is reported where the error is made.
#[derive(Debug, Clone, Copy, PartialEq, Eq)]
pub struct FatalError;

impl FatalError {
    /// The text shown for a fatal error.
    pub fn message(&self) -> (text: String)
        ensures
            text@ == "Encountered a fatal error, cannot continue"@,
    {
        String::from_str("Encountered a fatal error, cannot continue")
    }
}

/// The three ways a fallible result is reported. Reporting itself is the
/// host's business; what the library states is what each way hands on.
pub trait Log: Sized {
    /// What a successful result holds.
    type FatalSuccess;

    /// The value of a successful result, or nothing for a failed one.
    spec fn success(self) -> Option<Self::FatalSuccess>;

    /// Reports a failure as a warning and hands the result on unchanged.
    fn warn(self) -> (same: Self)
        ensures
            same == self,
    ;

    /// Reports a failure as an error and hands the result on unchanged.
    fn error(self) -> (same: Self)
        ensures
            same == self,
    ;

    /// Reports a failure as fatal: whatever the cause was, a
    /// [`FatalError`] takes its place. A success passes through.
    fn fatal(self) -> (res: Result<Self::FatalSuccess, FatalError>)
        ensures
            res == match self.success() {
                Some(value) => Ok::<Self::FatalSuccess, FatalError>(value),
                None => Err(FatalError),
            },
    ;
}

impl<T, E> Log for Result<T, E> {
    type FatalSuccess = T;

    open spec fn success(self) -> Option<T> {
        match self {
            Ok(value) => Some(value),
            Err(_) => None,
        }
    }

    fn warn(self) -> (same: Self) {
        self
    }

    fn error(self) -> (same: Self) {
        self
    }

    fn fatal(self) -> (res: Result<T, FatalError>) {
        match self {
            Ok(value) => Ok(value),
            Err(_) => Err(FatalError),
        }
    }
}

} // verus!
