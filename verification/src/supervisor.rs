//! Supervisor-level registers and the fields that may be written to each.

use crate::csr::Csr;
use crate::hart::Hart;
use crate::sealed::Sealed;
use crate::validate::TimerCompareValue;
use crate::validate::ValidAddress;
use crate::validate::to_word;
use crate::validate::word_of;
use vstd::prelude::*;

verus! {

/// A value that may be written to `sstatus`.
pub trait SStatusField: Sized + Sealed {
    /// The bit pattern of this value, already shifted into place.
    spec fn bits(self) -> u64;

    /// The bit pattern of this value, already shifted into place.
    fn to_u64(self) -> (word: u64)
        ensures
            word == self.bits(),
    ;
}

/// Two values for `sstatus` written at once: the union of their bits.
impl<A: SStatusField, B: SStatusField> SStatusField for (A, B) {
    open spec fn bits(self) -> u64 {
        self.0.bits() | self.1.bits()
    }

    fn to_u64(self) -> (word: u64) {
        self.0.to_u64() | self.1.to_u64()
    }
}

/// Supervisor previous privilege: set for supervisor mode, clear for user
/// mode.
#[derive(Clone, Copy, Debug, PartialEq, Eq)]
pub enum PrivilegeModeSStatus {
    /// The previous mode was supervisor mode.
    SPP,
}

impl Sealed for PrivilegeModeSStatus {

}

impl SStatusField for PrivilegeModeSStatus {
    open spec fn bits(self) -> u64 {
        match self {
            PrivilegeModeSStatus::SPP => 1u64 << 8,
        }
    }

    fn to_u64(self) -> (word: u64) {
        match self {
            PrivilegeModeSStatus::SPP => 1u64 << 8,
        }
    }
}

/// Global interrupt enable, as far as supervisor mode sees it.
#[derive(Clone, Copy, Debug, PartialEq, Eq)]
pub enum InterruptEnableSStatus {
    /// User interrupt enable.
    UIE,
    /// Supervisor interrupt enable.
    SIE,
}

impl Sealed for InterruptEnableSStatus {

}

impl SStatusField for InterruptEnableSStatus {
    open spec fn bits(self) -> u64 {
        match self {
            InterruptEnableSStatus::UIE => 1u64 << 0,
            InterruptEnableSStatus::SIE => 1u64 << 1,
        }
    }

    fn to_u64(self) -> (word: u64) {
        match self {
            InterruptEnableSStatus::UIE => 1u64 << 0,
            InterruptEnableSStatus::SIE => 1u64 << 1,
        }
    }
}

/// The interrupt enable that a supervisor-level privilege return restores.
#[derive(Clone, Copy, Debug, PartialEq, Eq)]
pub enum PreviousInterruptEnableSStatus {
    /// User previous interrupt enable.
    UPIE,
    /// Supervisor previous interrupt enable.
    SPIE,
}

impl Sealed for PreviousInterruptEnableSStatus {

}

impl SStatusField for PreviousInterruptEnableSStatus {
    open spec fn bits(self) -> u64 {
        match self {
            PreviousInterruptEnableSStatus::UPIE => 1u64 << 4,
            PreviousInterruptEnableSStatus::SPIE => 1u64 << 5,
        }
    }

    fn to_u64(self) -> (word: u64) {
        match self {
            PreviousInterruptEnableSStatus::UPIE => 1u64 << 4,
            PreviousInterruptEnableSStatus::SPIE => 1u64 << 5,
        }
    }
}

/// Reads `sstatus`.
pub fn read_sstatus(hart: &Hart) -> (word: u64)
    ensures
        word == hart@.csrs[Csr::Sstatus],
{
    hart.read(Csr::Sstatus)
}

/// Replaces the whole of `sstatus` by the bits of `val`; nothing else changes.
pub fn write_sstatus<T: SStatusField>(hart: &mut Hart, val: T)
    ensures
        final(hart)@ == old(hart)@.with_csr(Csr::Sstatus, val.bits()),
{
    hart.write(Csr::Sstatus, val.to_u64());
}

/// A value that may be written to `sie`.
pub trait SieField: Sized + Sealed {
    /// The bit pattern of this value, already shifted into place.
    spec fn bits(self) -> u64;

    /// The bit pattern of this value, already shifted into place.
    fn to_u64(self) -> (word: u64)
        ensures
            word == self.bits(),
    ;
}

/// Two values for `sie` written at once: the union of their bits.
impl<A: SieField, B: SieField> SieField for (A, B) {
    open spec fn bits(self) -> u64 {
        self.0.bits() | self.1.bits()
    }

    fn to_u64(self) -> (word: u64) {
        self.0.to_u64() | self.1.to_u64()
    }
}

/// An interrupt source to enable in supervisor mode.
#[derive(Clone, Copy, Debug, PartialEq, Eq)]
pub enum SieVal {
    /// Software interrupt.
    SSIE,
    /// Timer interrupt.
    STIE,
    /// External interrupt.
    SEIE,
}

impl Sealed for SieVal {

}

impl SieField for SieVal {
    open spec fn bits(self) -> u64 {
        match self {
            SieVal::SSIE => 1u64 << 1,
            SieVal::STIE => 1u64 << 5,
            SieVal::SEIE => 1u64 << 9,
        }
    }

    fn to_u64(self) -> (word: u64) {
        match self {
            SieVal::SSIE => 1u64 << 1,
            SieVal::STIE => 1u64 << 5,
            SieVal::SEIE => 1u64 << 9,
        }
    }
}

/// Reads `sie`.
pub fn read_sie(hart: &Hart) -> (word: u64)
    ensures
        word == hart@.csrs[Csr::Sie],
{
    hart.read(Csr::Sie)
}

/// Replaces the whole of `sie` by the bits of `val`; nothing else changes.
pub fn write_sie<T: SieField>(hart: &mut Hart, val: T)
    ensures
        final(hart)@ == old(hart)@.with_csr(Csr::Sie, val.bits()),
{
    hart.write(Csr::Sie, val.to_u64());
}

/// Reads `stvec`, the address of the supervisor trap handler.
pub fn read_stvec(hart: &Hart) -> (word: u64)
    ensures
        word == hart@.csrs[Csr::Stvec],
{
    hart.read(Csr::Stvec)
}

/// Replaces the whole of `stvec` by a validated address; nothing else changes.
pub fn write_stvec(hart: &mut Hart, addr: ValidAddress)
    ensures
        final(hart)@ == old(hart)@.with_csr(Csr::Stvec, word_of(addr@)),
{
    hart.write(Csr::Stvec, to_word(addr.get()));
}

/// Reads `sepc`, the address of the instruction that trapped to supervisor mode.
pub fn read_sepc(hart: &Hart) -> (word: u64)
    ensures
        word == hart@.csrs[Csr::Sepc],
{
    hart.read(Csr::Sepc)
}

/// Replaces the whole of `sepc` by a validated address; nothing else changes.
pub fn write_sepc(hart: &mut Hart, addr: ValidAddress)
    ensures
        final(hart)@ == old(hart)@.with_csr(Csr::Sepc, word_of(addr@)),
{
    hart.write(Csr::Sepc, to_word(addr.get()));
}

/// A value that may be written to `scause`.
pub trait ScauseField: Sized + Sealed {
    /// The bit pattern of this value, already shifted into place.
    spec fn bits(self) -> u64;

    /// The bit pattern of this value, already shifted into place.
    fn to_u64(self) -> (word: u64)
        ensures
            word == self.bits(),
    ;
}

/// The cause of a trap: an exception code, or an interrupt code under a set
/// top bit.
#[derive(Clone, Copy, Debug, PartialEq, Eq)]
pub enum ScauseVal {
    /// Exception 0.
    InstructionAddressMisaligned,
    /// Exception 1.
    InstructionAccessFault,
    /// Exception 2.
    IllegalInstruction,
    /// Exception 3.
    Breakpoint,
    /// Exception 4.
    LoadAddressMisaligned,
    /// Exception 5.
    LoadAccessFault,
    /// Exception 6.
    StoreAddressMisaligned,
    /// Exception 7.
    StoreAccessFault,
    /// Exception 8.
    EnvironmentCallFromUMode,
    /// Exception 9.
    EnvironmentCallFromSMode,
    /// Exception 12.
    InstructionPageFault,
    /// Exception 13.
    LoadPageFault,
    /// Exception 15.
    StorePageFault,
    /// Interrupt 0.
    UserSoftwareInterrupt,
    /// Interrupt 1.
    SupervisorSoftwareInterrupt,
    /// Interrupt 4.
    UserTimerInterrupt,
    /// Interrupt 5.
    SupervisorTimerInterrupt,
    /// Interrupt 8.
    UserExternalInterrupt,
    /// Interrupt 9.
    SupervisorExternalInterrupt,
}

impl Sealed for ScauseVal {

}

impl ScauseVal {
    /// Whether the cause is an interrupt rather than an exception.
    pub open spec fn is_interrupt(self) -> bool {
        match self {
            ScauseVal::UserSoftwareInterrupt => true,
            ScauseVal::SupervisorSoftwareInterrupt => true,
            ScauseVal::UserTimerInterrupt => true,
            ScauseVal::SupervisorTimerInterrupt => true,
            ScauseVal::UserExternalInterrupt => true,
            ScauseVal::SupervisorExternalInterrupt => true,
            _ => false,
        }
    }

    /// The code of the cause among the exceptions, or among the interrupts.
    pub open spec fn code(self) -> u64 {
        match self {
            ScauseVal::InstructionAddressMisaligned => 0,
            ScauseVal::InstructionAccessFault => 1,
            ScauseVal::IllegalInstruction => 2,
            ScauseVal::Breakpoint => 3,
            ScauseVal::LoadAddressMisaligned => 4,
            ScauseVal::LoadAccessFault => 5,
            ScauseVal::StoreAddressMisaligned => 6,
            ScauseVal::StoreAccessFault => 7,
            ScauseVal::EnvironmentCallFromUMode => 8,
            ScauseVal::EnvironmentCallFromSMode => 9,
            ScauseVal::InstructionPageFault => 12,
            ScauseVal::LoadPageFault => 13,
            ScauseVal::StorePageFault => 15,
            ScauseVal::UserSoftwareInterrupt => 0,
            ScauseVal::SupervisorSoftwareInterrupt => 1,
            ScauseVal::UserTimerInterrupt => 4,
            ScauseVal::SupervisorTimerInterrupt => 5,
            ScauseVal::UserExternalInterrupt => 8,
            ScauseVal::SupervisorExternalInterrupt => 9,
        }
    }

    /// A cause's code fits in four bits, and the top bit of its pattern tells
    /// an interrupt from an exception.
    pub proof fn lemma_top_bit_marks_interrupt(self)
        ensures
            self.code() <= 15,
            self.bits() & 0x7FFF_FFFF_FFFF_FFFF == self.code(),
            self.bits() >> 63 == 1 <==> self.is_interrupt(),
    {
        let code = self.code();
        assert({
            &&& ((1u64 << 63) | code) & 0x7FFF_FFFF_FFFF_FFFF == code
            &&& ((1u64 << 63) | code) >> 63 == 1
            &&& code & 0x7FFF_FFFF_FFFF_FFFF == code
            &&& code >> 63 == 0
        }) by (bit_vector)
            requires
                code <= 15,
        ;
    }
}

impl ScauseField for ScauseVal {
    open spec fn bits(self) -> u64 {
        if self.is_interrupt() {
            (1u64 << 63) | self.code()
        } else {
            self.code()
        }
    }

    fn to_u64(self) -> (word: u64) {
        match self {
            ScauseVal::InstructionAddressMisaligned => 0,
            ScauseVal::InstructionAccessFault => 1,
            ScauseVal::IllegalInstruction => 2,
            ScauseVal::Breakpoint => 3,
            ScauseVal::LoadAddressMisaligned => 4,
            ScauseVal::LoadAccessFault => 5,
            ScauseVal::StoreAddressMisaligned => 6,
            ScauseVal::StoreAccessFault => 7,
            ScauseVal::EnvironmentCallFromUMode => 8,
            ScauseVal::EnvironmentCallFromSMode => 9,
            ScauseVal::InstructionPageFault => 12,
            ScauseVal::LoadPageFault => 13,
            ScauseVal::StorePageFault => 15,
            ScauseVal::UserSoftwareInterrupt => (1u64 << 63) | 0,
            ScauseVal::SupervisorSoftwareInterrupt => (1u64 << 63) | 1,
            ScauseVal::UserTimerInterrupt => (1u64 << 63) | 4,
            ScauseVal::SupervisorTimerInterrupt => (1u64 << 63) | 5,
            ScauseVal::UserExternalInterrupt => (1u64 << 63) | 8,
            ScauseVal::SupervisorExternalInterrupt => (1u64 << 63) | 9,
        }
    }
}

/// Reads `scause`.
pub fn read_scause(hart: &Hart) -> (word: u64)
    ensures
        word == hart@.csrs[Csr::Scause],
{
    hart.read(Csr::Scause)
}

/// Replaces the whole of `scause` by the bits of `val`; nothing else changes.
/// The hart sets `scause` itself when it traps; kernels seldom need this.
pub fn write_scause<T: ScauseField>(hart: &mut Hart, val: T)
    ensures
        final(hart)@ == old(hart)@.with_csr(Csr::Scause, val.bits()),
{
    hart.write(Csr::Scause, val.to_u64());
}

/// Reads `stval`, the address or instruction that a trap was about.
pub fn read_stval(hart: &Hart) -> (word: u64)
    ensures
        word == hart@.csrs[Csr::Stval],
{
    hart.read(Csr::Stval)
}

/// Replaces the whole of `stval` by a validated address; nothing else changes.
pub fn write_stval(hart: &mut Hart, addr: ValidAddress)
    ensures
        final(hart)@ == old(hart)@.with_csr(Csr::Stval, word_of(addr@)),
{
    hart.write(Csr::Stval, to_word(addr.get()));
}

/// A value that may be written to `sip`.
pub trait SipField: Sized + Sealed {
    /// The bit pattern of this value, already shifted into place.
    spec fn bits(self) -> u64;

    /// The bit pattern of this value, already shifted into place.
    fn to_u64(self) -> (word: u64)
        ensures
            word == self.bits(),
    ;
}

/// Two values for `sip` written at once: the union of their bits.
impl<A: SipField, B: SipField> SipField for (A, B) {
    open spec fn bits(self) -> u64 {
        self.0.bits() | self.1.bits()
    }

    fn to_u64(self) -> (word: u64) {
        self.0.to_u64() | self.1.to_u64()
    }
}

/// A pending supervisor-level interrupt.
#[derive(Clone, Copy, Debug, PartialEq, Eq)]
pub enum SipVal {
    /// Software interrupt.
    SSIP,
    /// Timer interrupt.
    STIP,
    /// External interrupt.
    SEIP,
}

impl Sealed for SipVal {

}

impl SipField for SipVal {
    open spec fn bits(self) -> u64 {
        match self {
            SipVal::SSIP => 1u64 << 1,
            SipVal::STIP => 1u64 << 5,
            SipVal::SEIP => 1u64 << 9,
        }
    }

    fn to_u64(self) -> (word: u64) {
        match self {
            SipVal::SSIP => 1u64 << 1,
            SipVal::STIP => 1u64 << 5,
            SipVal::SEIP => 1u64 << 9,
        }
    }
}

/// Reads `sip`.
pub fn read_sip(hart: &Hart) -> (word: u64)
    ensures
        word == hart@.csrs[Csr::Sip],
{
    hart.read(Csr::Sip)
}

/// Replaces the whole of `sip` by the bits of `val`; nothing else changes.
pub fn write_sip<T: SipField>(hart: &mut Hart, val: T)
    ensures
        final(hart)@ == old(hart)@.with_csr(Csr::Sip, val.bits()),
{
    hart.write(Csr::Sip, val.to_u64());
}

/// Reads `stimecmp`, the time at which the next supervisor timer interrupt is due.
pub fn read_stimecmp(hart: &Hart) -> (word: u64)
    ensures
        word == hart@.csrs[Csr::Stimecmp],
{
    hart.read(Csr::Stimecmp)
}

/// Replaces the whole of `stimecmp` by a validated value; nothing else changes.
pub fn write_stimecmp(hart: &mut Hart, val: TimerCompareValue)
    ensures
        final(hart)@ == old(hart)@.with_csr(Csr::Stimecmp, word_of(val@)),
{
    hart.write(Csr::Stimecmp, to_word(val.get()));
}

} // verus!
