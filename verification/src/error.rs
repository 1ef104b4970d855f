//! Errors reported by the library.

use vstd::prelude::*;

verus! {

/// The errors that the library reports.
#[derive(Clone, Copy, Debug, PartialEq, Eq, Structural)]
pub enum OssuaryError {
    /// A byte buffer is too short to hold the structure that was asked for.
    InvalidStruct,
    /// The operating system's source of randomness could not be opened.
    RandomSource,
}

} // verus!
