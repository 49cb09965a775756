//! The supervisor address translation and protection register: a translation
//! mode in the top four bits, the frame number of the root page table below.

use crate::csr::Csr;
use crate::hart::Hart;
use crate::sealed::Sealed;
use crate::validate::to_word;
use crate::validate::word_of;
use vstd::prelude::*;

verus! {

/// Number of address bits inside one page.
pub const PAGE_OFFSET_BITS: u64 = 12;

/// Position of the lowest bit of the translation mode.
pub const SATP_MODE_SHIFT: u64 = 60;

/// The bits that hold the frame number of the root page table: all that a
/// 64-bit address leaves once its in-page bits are shifted out.
pub const SATP_FRAME_MASK: u64 = 0x000F_FFFF_FFFF_FFFF;

/// A value that may take the mode's place in a `satp` word.
pub trait SatpField: Sized + Sealed {
    /// The bit pattern of this value, already shifted into place.
    spec fn bits(self) -> u64;

    /// The bit pattern of this value, already shifted into place.
    fn to_u64(self) -> (word: u64)
        ensures
            word == self.bits(),
    ;
}

/// How virtual addresses are mapped to physical ones.
#[derive(Clone, Copy, Debug, PartialEq, Eq)]
pub enum SatpMode {
    /// No translation or protection.
    Bare,
    /// Page-based 39-bit virtual addressing.
    Sv39,
    /// Page-based 48-bit virtual addressing.
    Sv48,
}

impl SatpMode {
    /// The number that stands for this mode in the top four bits.
    pub open spec fn tag(self) -> u64 {
        match self {
            SatpMode::Bare => 0,
            SatpMode::Sv39 => 8,
            SatpMode::Sv48 => 9,
        }
    }
}

impl Sealed for SatpMode {

}

impl SatpField for SatpMode {
    open spec fn bits(self) -> u64 {
        self.tag() << SATP_MODE_SHIFT
    }

    fn to_u64(self) -> (word: u64) {
        match self {
            SatpMode::Bare => 0u64 << SATP_MODE_SHIFT,
            SatpMode::Sv39 => 8u64 << SATP_MODE_SHIFT,
            SatpMode::Sv48 => 9u64 << SATP_MODE_SHIFT,
        }
    }
}

/// The `satp` word made of mode bits and the address of a root page table:
/// the mode bits over the table's frame number.
pub open spec fn satp_word(mode_bits: u64, pagetable: usize) -> u64 {
    mode_bits | (word_of(pagetable) >> PAGE_OFFSET_BITS)
}

/// The mode that the top four bits of `satp` name, if they name one.
pub open spec fn satp_mode(satp: u64) -> Option<SatpMode> {
    let tag = satp >> SATP_MODE_SHIFT;
    if tag == SatpMode::Bare.tag() {
        Some(SatpMode::Bare)
    } else if tag == SatpMode::Sv39.tag() {
        Some(SatpMode::Sv39)
    } else if tag == SatpMode::Sv48.tag() {
        Some(SatpMode::Sv48)
    } else {
        None
    }
}

/// The address of the root page table that `satp` names.
pub open spec fn satp_base(satp: u64) -> u64 {
    (satp & SATP_FRAME_MASK) << PAGE_OFFSET_BITS
}

/// Builds a `satp` word from the address of a root page table and a mode.
pub fn make_satp<T: SatpField>(pagetable: usize, mode: T) -> (satp: u64)
    ensures
        satp == satp_word(mode.bits(), pagetable),
{
    mode.to_u64() | (to_word(pagetable) >> PAGE_OFFSET_BITS)
}

/// A `satp` word taken apart: its mode and the address of its root page
/// table, or `None` where the top four bits name no mode.
pub open spec fn satp_parts(satp: u64) -> Option<(SatpMode, u64)> {
    match satp_mode(satp) {
        Some(mode) => Some((mode, satp_base(satp))),
        None => None,
    }
}

/// Takes a `satp` word apart into its mode and the address of its root page
/// table. Gives `None` exactly when the top four bits name no mode.
pub fn decompose_satp(satp: u64) -> (parts: Option<(SatpMode, u64)>)
    ensures
        parts == satp_parts(satp),
{
    let base = (satp & SATP_FRAME_MASK) << PAGE_OFFSET_BITS;
    let tag = satp >> SATP_MODE_SHIFT;
    if tag == 0 {
        Some((SatpMode::Bare, base))
    } else if tag == 8 {
        Some((SatpMode::Sv39, base))
    } else if tag == 9 {
        Some((SatpMode::Sv48, base))
    } else {
        None
    }
}

/// Taking a composed `satp` word apart gives back the mode and the
/// page-aligned address it was made of; in the word the two share no bit.
pub proof fn lemma_satp_round_trip(mode: SatpMode, pagetable: usize)
    requires
        pagetable % 4096 == 0,
    ensures
        satp_parts(satp_word(mode.bits(), pagetable)) == Some((mode, word_of(pagetable))),
        mode.bits() & (word_of(pagetable) >> PAGE_OFFSET_BITS) == 0,
{
    let base = word_of(pagetable);
    let tag = mode.tag();
    assert({
        let satp = (tag << 60) | (base >> 12);
        &&& (tag << 60) & (base >> 12) == 0
        &&& satp >> 60 == tag
        &&& (satp & 0x000F_FFFF_FFFF_FFFF) << 12 == base
    }) by (bit_vector)
        requires
            tag == 0 || tag == 8 || tag == 9,
            base % 4096 == 0,
    ;
}

/// Composition is injective: two words made of page-aligned addresses are
/// equal only if they were made of the same mode and the same address.
pub proof fn lemma_satp_injective(
    mode_a: SatpMode,
    pagetable_a: usize,
    mode_b: SatpMode,
    pagetable_b: usize,
)
    requires
        pagetable_a % 4096 == 0,
        pagetable_b % 4096 == 0,
        satp_word(mode_a.bits(), pagetable_a) == satp_word(mode_b.bits(), pagetable_b),
    ensures
        mode_a == mode_b,
        pagetable_a == pagetable_b,
{
    lemma_satp_round_trip(mode_a, pagetable_a);
    lemma_satp_round_trip(mode_b, pagetable_b);
}

/// Reads `satp`.
pub fn read_satp(hart: &Hart) -> (word: u64)
    ensures
        word == hart@.csrs[Csr::Satp],
{
    hart.read(Csr::Satp)
}

/// Replaces the whole of `satp`; nothing else changes. The translations the
/// hart has cached stay those of the earlier word until `flush_tlb` runs.
pub fn write_satp(hart: &mut Hart, val: u64)
    ensures
        final(hart)@ == old(hart)@.with_csr(Csr::Satp, val),
{
    hart.write(Csr::Satp, val);
}

} // verus!
