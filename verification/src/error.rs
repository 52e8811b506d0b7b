//! Errors that the library reports.
use vstd::prelude::*;

verus! {

/// What can go wrong in the library's own computations.
#[derive(Debug, Clone, Copy, PartialEq, Eq, Structural)]
pub enum Error {
    /// The directory that holds the helper executables could not be derived
    /// from the path of the running executable.
    FailedToDetermineExtractPath,
    /// An update endpoint, once its placeholders were filled in, was not an
    /// absolute URL.
    InvalidUrl,
}

} // verus!
