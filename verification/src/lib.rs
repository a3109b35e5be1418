//! Verified numerical routines around the cyclic Jacobi eigenvalue
//! algorithm for dense symmetric matrices, together with the option
//! enumerations of the sparse-solver interface and the index maps of the
//! tensor vector/matrix representations.
//!
//! Scalars are carried as the `u64` bit patterns of IEEE-754 doubles (see
//! `fp`), which lets every routine state in its contract exactly which
//! function of the input bits it computes.

use vstd::prelude::*;

pub mod eigen;
pub mod enums;
pub mod fp;
pub mod matrix;
pub mod tensor;
pub mod vector;

verus! {

/// The error type used throughout the library: a static message naming
/// exactly what went wrong.
pub type StrError = &'static str;

} // verus!
