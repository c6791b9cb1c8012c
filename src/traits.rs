//! The capabilities that the parts of the library share.
use vstd::prelude::*;

use crate::transform::SymmetryError;
use vstd::string::StringSliceAdditionalSpecFns;

verus! {

/// A value that can be written back in a compact textual form.
pub trait Transformer {
    fn as_simple(&self) -> String;
}

/// Combination of two values under periodic boundary conditions.
pub trait Periodic<Rhs = Self> {
    type Output;

    fn periodic(&self, rhs: Rhs) -> Self::Output;
}

/// In-place combination of two values under periodic boundary conditions.
pub trait PeriodicAssign<Rhs = Self> {
    fn periodic_assign(&mut self, rhs: Rhs);
}

/// A value built from a symmetry operation in crystallographic shorthand.
pub trait FromSymmetry: Sized {
    /// Whether `r` is what reading the bytes `ops` gives.
    spec fn parses_to(ops: Seq<u8>, r: Result<Self, SymmetryError>) -> bool;

    fn from_operations(ops: &str) -> (r: Result<Self, SymmetryError>)
        ensures
            Self::parses_to(ops.spec_bytes(), r),
    ;
}

} // verus!
