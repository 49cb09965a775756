//! Keeps the register families closed.

use vstd::prelude::*;

verus! {

/// Bounds every field trait. Only this crate can implement it, so no type
/// from outside can join a register's family.
pub trait Sealed {

}

impl<A: Sealed, B: Sealed> Sealed for (A, B) {

}

} // verus!
