//! Physical memory protection registers.

use crate::csr::Csr;
use crate::hart::Hart;
use crate::sealed::Sealed;
use crate::validate::ValidAddress;
use crate::validate::to_word;
use crate::validate::word_of;
use vstd::prelude::*;

verus! {

/// A value that may be written to `pmpcfg0`.
pub trait PmpcfgField: Sized + Sealed {
    /// The bit pattern of this value, already shifted into place.
    spec fn bits(self) -> u64;

    /// The bit pattern of this value, already shifted into place.
    fn to_u64(self) -> (word: u64)
        ensures
            word == self.bits(),
    ;
}

/// Two values for `pmpcfg0` written at once: the union of their bits.
impl<A: PmpcfgField, B: PmpcfgField> PmpcfgField for (A, B) {
    open spec fn bits(self) -> u64 {
        self.0.bits() | self.1.bits()
    }

    fn to_u64(self) -> (word: u64) {
        self.0.to_u64() | self.1.to_u64()
    }
}

/// A permission or mode bit of protection region 0.
#[derive(Clone, Copy, Debug, PartialEq, Eq)]
pub enum PmpcfgVal {
    /// The region may be read.
    R,
    /// The region may be written.
    W,
    /// The region may be executed.
    X,
    /// Address matching is on.
    A,
    /// The entry is locked.
    L,
}

impl Sealed for PmpcfgVal {

}

impl PmpcfgField for PmpcfgVal {
    open spec fn bits(self) -> u64 {
        match self {
            PmpcfgVal::R => 1u64 << 0,
            PmpcfgVal::W => 1u64 << 1,
            PmpcfgVal::X => 1u64 << 2,
            PmpcfgVal::A => 1u64 << 3,
            PmpcfgVal::L => 1u64 << 7,
        }
    }

    fn to_u64(self) -> (word: u64) {
        match self {
            PmpcfgVal::R => 1u64 << 0,
            PmpcfgVal::W => 1u64 << 1,
            PmpcfgVal::X => 1u64 << 2,
            PmpcfgVal::A => 1u64 << 3,
            PmpcfgVal::L => 1u64 << 7,
        }
    }
}

/// Reads `pmpcfg0`.
pub fn read_pmpcfg0(hart: &Hart) -> (word: u64)
    ensures
        word == hart@.csrs[Csr::Pmpcfg0],
{
    hart.read(Csr::Pmpcfg0)
}

/// Replaces the whole of `pmpcfg0` by the bits of `val`; nothing else changes.
pub fn write_pmpcfg0<T: PmpcfgField>(hart: &mut Hart, val: T)
    ensures
        final(hart)@ == old(hart)@.with_csr(Csr::Pmpcfg0, val.bits()),
{
    hart.write(Csr::Pmpcfg0, val.to_u64());
}

/// Reads `pmpaddr0`, the address bound of protection region 0.
pub fn read_pmpaddr0(hart: &Hart) -> (word: u64)
    ensures
        word == hart@.csrs[Csr::Pmpaddr0],
{
    hart.read(Csr::Pmpaddr0)
}

/// Replaces the whole of `pmpaddr0` by a validated address; nothing else changes.
pub fn write_pmpaddr0(hart: &mut Hart, val: ValidAddress)
    ensures
        final(hart)@ == old(hart)@.with_csr(Csr::Pmpaddr0, word_of(val@)),
{
    hart.write(Csr::Pmpaddr0, to_word(val.get()));
}

} // verus!
