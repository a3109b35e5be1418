//! Options for the sparse linear solvers: matrix symmetry, solver kind,
//! ordering and scaling strategies, and the conversions between the
//! user-facing names, the solver-specific integer codes, and descriptions.

use vstd::prelude::*;
use crate::StrError;

verus! {

/// Matrix symmetry option
#[derive(Clone, Copy, Debug)]
pub enum Symmetry {
    /// General symmetric matrix
    General,
    /// The matrix is positive-definite and symmetric
    PosDef,
}

/// Linear solver kind
#[derive(Clone, Copy, Debug)]
pub enum LinSolKind {
    /// The non-thread-safe (Mu-M-P) solver (use in single-thread apps / with huge matrices)
    Mmp,
    /// Tim Davis' UMFPACK solver (recommended, unless the matrix is huge)
    Umf,
}

/// Ordering option
#[derive(Clone, Copy, Debug)]
pub enum Ordering {
    /// Ordering using the approximate minimum degree
    Amd,
    /// Ordering using the approximate minimum fill-in (MMP-only, otherwise Auto)
    Amf,
    /// Automatic ordering method selection
    Auto,
    /// Try three methods and take the best (UMF-only, otherwise Auto)
    Best,
    /// Use Amd for symmetric, Colamd for unsymmetric, or Metis (UMF-only, otherwise Auto)
    Cholmod,
    /// Ordering by Karpis & Kumar from the University of Minnesota
    Metis,
    /// The matrix is factorized as-is (UMF-only, otherwise Auto)
    No,
    /// Ordering by Schulze from the University of Paderborn (MMP-only, otherwise Auto)
    Pord,
    /// Ordering using the automatic quasi-dense row detection (MMP-only, otherwise Auto)
    Qamd,
    /// Ordering using the Scotch package (MMP-only, otherwise Auto)
    Scotch,
}

/// Scaling option
#[derive(Clone, Copy, Debug)]
pub enum Scaling {
    /// Automatic scaling method selection
    Auto,
    /// Column scaling (MMP-only, otherwise Auto)
    Column,
    /// Diagonal scaling (MMP-only, otherwise Auto)
    Diagonal,
    /// Use the max absolute value in the row (UMF-only, otherwise Auto)
    Max,
    /// No scaling applied or computed
    No,
    /// Row and column scaling based on infinite row/column norms (MMP-only, otherwise Auto)
    RowCol,
    /// Simultaneous row and column iterative scaling (MMP-only, otherwise Auto)
    RowColIter,
    /// Similar to RowColIter but more rigorous and expensive to compute (MMP-only, otherwise Auto)
    RowColRig,
    /// Use the sum of the absolute value in the row (UMF-only, otherwise Auto)
    Sum,
}

/// Relies on `<str as PartialEq>::eq`: two string slices compare equal
/// exactly when they hold the same characters.
#[verifier::external_body]
fn str_eq(a: &str, b: &str) -> (r: bool)
    ensures
        r <==> a@ == b@,
{
    a == b
}

/// The `Ordering` that each name denotes; every unknown name means `Auto`.
pub open spec fn spec_enum_ordering(s: Seq<char>) -> Ordering {
    if s == "Amd"@ {
        Ordering::Amd
    } else if s == "Amf"@ {
        Ordering::Amf
    } else if s == "Auto"@ {
        Ordering::Auto
    } else if s == "Best"@ {
        Ordering::Best
    } else if s == "Cholmod"@ {
        Ordering::Cholmod
    } else if s == "Metis"@ {
        Ordering::Metis
    } else if s == "No"@ {
        Ordering::No
    } else if s == "Pord"@ {
        Ordering::Pord
    } else if s == "Qamd"@ {
        Ordering::Qamd
    } else if s == "Scotch"@ {
        Ordering::Scotch
    } else {
        Ordering::Auto
    }
}

/// Returns the Ordering by name
pub fn enum_ordering(ordering: &str) -> (r: Ordering)
    ensures
        r == spec_enum_ordering(ordering@),
{
    if str_eq(ordering, "Amd") {
        Ordering::Amd
    } else if str_eq(ordering, "Amf") {
        Ordering::Amf
    } else if str_eq(ordering, "Auto") {
        Ordering::Auto
    } else if str_eq(ordering, "Best") {
        Ordering::Best
    } else if str_eq(ordering, "Cholmod") {
        Ordering::Cholmod
    } else if str_eq(ordering, "Metis") {
        Ordering::Metis
    } else if str_eq(ordering, "No") {
        Ordering::No
    } else if str_eq(ordering, "Pord") {
        Ordering::Pord
    } else if str_eq(ordering, "Qamd") {
        Ordering::Qamd
    } else if str_eq(ordering, "Scotch") {
        Ordering::Scotch
    } else {
        Ordering::Auto
    }
}

/// The `Scaling` that each name denotes; every unknown name means `Auto`.
pub open spec fn spec_enum_scaling(s: Seq<char>) -> Scaling {
    if s == "Auto"@ {
        Scaling::Auto
    } else if s == "Column"@ {
        Scaling::Column
    } else if s == "Diagonal"@ {
        Scaling::Diagonal
    } else if s == "Max"@ {
        Scaling::Max
    } else if s == "No"@ {
        Scaling::No
    } else if s == "RowCol"@ {
        Scaling::RowCol
    } else if s == "RowColIter"@ {
        Scaling::RowColIter
    } else if s == "RowColRig"@ {
        Scaling::RowColRig
    } else if s == "Sum"@ {
        Scaling::Sum
    } else {
        Scaling::Auto
    }
}

/// Returns the Scaling by name
pub fn enum_scaling(scaling: &str) -> (r: Scaling)
    ensures
        r == spec_enum_scaling(scaling@),
{
    if str_eq(scaling, "Auto") {
        Scaling::Auto
    } else if str_eq(scaling, "Column") {
        Scaling::Column
    } else if str_eq(scaling, "Diagonal") {
        Scaling::Diagonal
    } else if str_eq(scaling, "Max") {
        Scaling::Max
    } else if str_eq(scaling, "No") {
        Scaling::No
    } else if str_eq(scaling, "RowCol") {
        Scaling::RowCol
    } else if str_eq(scaling, "RowColIter") {
        Scaling::RowColIter
    } else if str_eq(scaling, "RowColRig") {
        Scaling::RowColRig
    } else if str_eq(scaling, "Sum") {
        Scaling::Sum
    } else {
        Scaling::Auto
    }
}

/// The symmetry code handed to the MMP solver.
pub open spec fn spec_code_symmetry_mmp(option: Option<Symmetry>) -> i32 {
    match option {
        None => 0,
        Some(Symmetry::General) => 2,
        Some(Symmetry::PosDef) => 1,
    }
}

pub fn code_symmetry_mmp(option: Option<Symmetry>) -> (r: Result<i32, StrError>)
    ensures
        r == Ok::<i32, StrError>(spec_code_symmetry_mmp(option)),
{
    match option {
        None => Ok(0),
        Some(v) => match v {
            Symmetry::General => Ok(2),
            Symmetry::PosDef => Ok(1),
        },
    }
}

/// The symmetry code handed to the UMFPACK solver.
pub open spec fn spec_code_symmetry_umf(option: Option<Symmetry>) -> i32 {
    match option {
        None => 0,
        Some(_) => 1,
    }
}

pub fn code_symmetry_umf(option: Option<Symmetry>) -> (r: Result<i32, StrError>)
    ensures
        r == Ok::<i32, StrError>(spec_code_symmetry_umf(option)),
{
    match option {
        None => Ok(0),
        Some(v) => match v {
            Symmetry::General => Ok(1),
            Symmetry::PosDef => Ok(1),
        },
    }
}

/// The description of each `Ordering` index used by the solver interface.
pub open spec fn spec_str_enum_ordering(index: int) -> Seq<char> {
    if index == 0 {
        "Amd"@
    } else if index == 1 {
        "Amf (MMP-only, otherwise Auto)"@
    } else if index == 2 {
        "Auto"@
    } else if index == 3 {
        "Best (UMF-only, otherwise Auto)"@
    } else if index == 4 {
        "Cholmod (UMF-only, otherwise Auto)"@
    } else if index == 5 {
        "Metis"@
    } else if index == 6 {
        "No (UMF-only, otherwise Auto)"@
    } else if index == 7 {
        "Pord (MMP-only, otherwise Auto)"@
    } else if index == 8 {
        "Qamd (MMP-only, otherwise Auto)"@
    } else {
        "Scotch (MMP-only, otherwise Auto)"@
    }
}

pub fn str_enum_ordering(index: i32) -> (r: &'static str)
    requires
        0 <= index <= 9,
    ensures
        r@ == spec_str_enum_ordering(index as int),
{
    if index == 0 {
        "Amd"
    } else if index == 1 {
        "Amf (MMP-only, otherwise Auto)"
    } else if index == 2 {
        "Auto"
    } else if index == 3 {
        "Best (UMF-only, otherwise Auto)"
    } else if index == 4 {
        "Cholmod (UMF-only, otherwise Auto)"
    } else if index == 5 {
        "Metis"
    } else if index == 6 {
        "No (UMF-only, otherwise Auto)"
    } else if index == 7 {
        "Pord (MMP-only, otherwise Auto)"
    } else if index == 8 {
        "Qamd (MMP-only, otherwise Auto)"
    } else {
        "Scotch (MMP-only, otherwise Auto)"
    }
}

/// The description of each `Scaling` index used by the solver interface.
pub open spec fn spec_str_enum_scaling(index: int) -> Seq<char> {
    if index == 0 {
        "Auto"@
    } else if index == 1 {
        "Column (MMP-only, otherwise Auto)"@
    } else if index == 2 {
        "Diagonal (MMP-only, otherwise Auto)"@
    } else if index == 3 {
        "Max (UMF-only, otherwise Auto)"@
    } else if index == 4 {
        "No"@
    } else if index == 5 {
        "RowCol (MMP-only, otherwise Auto)"@
    } else if index == 6 {
        "RowColIter (MMP-only, otherwise Auto)"@
    } else if index == 7 {
        "RowColRig (MMP-only, otherwise Auto)"@
    } else {
        "Sum (UMF-only, otherwise Auto)"@
    }
}

pub fn str_enum_scaling(index: i32) -> (r: &'static str)
    requires
        0 <= index <= 8,
    ensures
        r@ == spec_str_enum_scaling(index as int),
{
    if index == 0 {
        "Auto"
    } else if index == 1 {
        "Column (MMP-only, otherwise Auto)"
    } else if index == 2 {
        "Diagonal (MMP-only, otherwise Auto)"
    } else if index == 3 {
        "Max (UMF-only, otherwise Auto)"
    } else if index == 4 {
        "No"
    } else if index == 5 {
        "RowCol (MMP-only, otherwise Auto)"
    } else if index == 6 {
        "RowColIter (MMP-only, otherwise Auto)"
    } else if index == 7 {
        "RowColRig (MMP-only, otherwise Auto)"
    } else {
        "Sum (UMF-only, otherwise Auto)"
    }
}

/// The name of the ordering that each MMP status code reports back.
pub open spec fn spec_str_mmp_ordering(code: int) -> Seq<char> {
    if code == 0 {
        "Amd"@
    } else if code == 1 {
        "UserProvided"@
    } else if code == 2 {
        "Amf"@
    } else if code == 3 {
        "Scotch"@
    } else if code == 4 {
        "Pord"@
    } else if code == 5 {
        "Metis"@
    } else if code == 6 {
        "Qamd"@
    } else if code == 7 {
        "Auto"@
    } else {
        "Unknown"@
    }
}

pub fn str_mmp_ordering(mmp_code: i32) -> (r: &'static str)
    ensures
        r@ == spec_str_mmp_ordering(mmp_code as int),
{
    if mmp_code == 0 {
        "Amd"
    } else if mmp_code == 1 {
        "UserProvided"
    } else if mmp_code == 2 {
        "Amf"
    } else if mmp_code == 3 {
        "Scotch"
    } else if mmp_code == 4 {
        "Pord"
    } else if mmp_code == 5 {
        "Metis"
    } else if mmp_code == 6 {
        "Qamd"
    } else if mmp_code == 7 {
        "Auto"
    } else {
        "Unknown"
    }
}

/// The name of the scaling that each MMP status code reports back.
pub open spec fn spec_str_mmp_scaling(code: int) -> Seq<char> {
    if code == -1 {
        "UserProvided"@
    } else if code == 0 {
        "No"@
    } else if code == 1 {
        "Diagonal"@
    } else if code == 3 {
        "Column"@
    } else if code == 4 {
        "RowCol"@
    } else if code == 7 {
        "RowColIter"@
    } else if code == 8 {
        "RowColRig"@
    } else if code == 77 {
        "Auto"@
    } else {
        "Unknown"@
    }
}

pub fn str_mmp_scaling(mmp_code: i32) -> (r: &'static str)
    ensures
        r@ == spec_str_mmp_scaling(mmp_code as int),
{
    if mmp_code == -1 {
        "UserProvided"
    } else if mmp_code == 0 {
        "No"
    } else if mmp_code == 1 {
        "Diagonal"
    } else if mmp_code == 3 {
        "Column"
    } else if mmp_code == 4 {
        "RowCol"
    } else if mmp_code == 7 {
        "RowColIter"
    } else if mmp_code == 8 {
        "RowColRig"
    } else if mmp_code == 77 {
        "Auto"
    } else {
        "Unknown"
    }
}

/// The name of the ordering that each UMFPACK status code reports back.
pub open spec fn spec_str_umf_ordering(code: int) -> Seq<char> {
    if code == 0 {
        "Cholmod"@
    } else if code == 1 {
        "Amd"@
    } else if code == 2 {
        "UserProvided"@
    } else if code == 3 {
        "Metis"@
    } else if code == 4 {
        "Best"@
    } else if code == 5 {
        "No"@
    } else if code == 6 {
        "UserProvided"@
    } else {
        "Unknown"@
    }
}

pub fn str_umf_ordering(umf_code: i32) -> (r: &'static str)
    ensures
        r@ == spec_str_umf_ordering(umf_code as int),
{
    if umf_code == 0 {
        "Cholmod"
    } else if umf_code == 1 {
        "Amd"
    } else if umf_code == 2 {
        "UserProvided"
    } else if umf_code == 3 {
        "Metis"
    } else if umf_code == 4 {
        "Best"
    } else if umf_code == 5 {
        "No"
    } else if umf_code == 6 {
        "UserProvided"
    } else {
        "Unknown"
    }
}

/// The name of the scaling that each UMFPACK status code reports back.
pub open spec fn spec_str_umf_scaling(code: int) -> Seq<char> {
    if code == 0 {
        "No"@
    } else if code == 1 {
        "Sum"@
    } else if code == 2 {
        "Max"@
    } else {
        "Unknown"@
    }
}

pub fn str_umf_scaling(umf_code: i32) -> (r: &'static str)
    ensures
        r@ == spec_str_umf_scaling(umf_code as int),
{
    if umf_code == 0 {
        "No"
    } else if umf_code == 1 {
        "Sum"
    } else if umf_code == 2 {
        "Max"
    } else {
        "Unknown"
    }
}

} // verus!
