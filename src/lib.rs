//! Building blocks of a search for dense, symmetric packings of two-dimensional shapes:
//! symmetry operations read from crystallographic shorthand, the catalog of wallpaper
//! groups, exact segment intersection on the outlines of shapes, and the schedule of a
//! simulated-annealing run.
use vstd::prelude::*;

pub mod traits;
pub mod transform;
pub mod optimisation;
pub mod shape;
pub mod wallpaper;

verus! {

/// The classes of two-dimensional lattices, which constrain the unit-cell shape.
#[derive(Debug, Clone, Copy, PartialEq, Eq, Structural)]
pub enum CrystalFamily {
    Monoclinic,
    Orthorhombic,
    Hexagonal,
    Tetragonal,
}

} // verus!
