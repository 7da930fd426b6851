//! Errors reported by the library.

use vstd::prelude::*;

verus! {

/// Why a value could not be built.
#[derive(Clone, Copy, Debug, PartialEq, Eq)]
pub enum Error {
    /// The parameters describe nothing that can be generated or simulated.
    InvalidConfig,
    /// An entity is marked both as a character and as an object.
    InvariantViolation,
}

} // verus!
