//! Machine-level registers and the fields that may be written to each.
//!
//! Every register has a family of field types, marked by a trait of its own.
//! A register's writer takes only values of its own family, so a bit pattern
//! meant for one register cannot reach another. Every write replaces the
//! whole register.

use crate::csr::Csr;
use crate::hart::Hart;
use crate::hart::HartView;
use crate::sealed::Sealed;
use crate::validate::ValidAddress;
use crate::validate::word_of;
use crate::validate::to_word;
use vstd::prelude::*;

verus! {

/// Reads `mhartid`, the id of the hart.
pub fn read_mhartid(hart: &Hart) -> (word: u64)
    ensures
        word == hart@.csrs[Csr::Mhartid],
{
    hart.read(Csr::Mhartid)
}

/// A value that may be written to `mstatus`.
pub trait MStatusField: Sized + Sealed {
    /// The bit pattern of this value, already shifted into place.
    spec fn bits(self) -> u64;

    /// The bit pattern of this value, already shifted into place.
    fn to_u64(self) -> (word: u64)
        ensures
            word == self.bits(),
    ;

    /// The pattern is a legal one: it leaves the previous-privilege field
    /// naming a mode.
    proof fn lemma_names_previous_privilege(self)
        ensures
            previous_privilege(self.bits()) is Some,
    ;
}

/// Two values for `mstatus` written at once: the union of their bits.
impl<A: MStatusField, B: MStatusField> MStatusField for (A, B) {
    open spec fn bits(self) -> u64 {
        self.0.bits() | self.1.bits()
    }

    fn to_u64(self) -> (word: u64) {
        self.0.to_u64() | self.1.to_u64()
    }

    proof fn lemma_names_previous_privilege(self) {
        self.0.lemma_names_previous_privilege();
        self.1.lemma_names_previous_privilege();
        let x = self.0.bits();
        let y = self.1.bits();
        assert({
            let mask = 0b11u64 << 11;
            let field = (x | y) & mask;
            field == 0b00u64 << 11 || field == 0b01u64 << 11 || field == mask
        }) by (bit_vector)
            requires
                ({
                    let mask = 0b11u64 << 11;
                    &&& x & mask == 0b00u64 << 11 || x & mask == 0b01u64 << 11 || x & mask == mask
                    &&& y & mask == 0b00u64 << 11 || y & mask == 0b01u64 << 11 || y & mask == mask
                }),
        ;
    }
}

/// Machine previous privilege: the mode that a machine-level privilege return
/// drops into. Also names the mode a hart runs in.
#[derive(Clone, Copy, Debug, PartialEq, Eq)]
pub enum PrivilegeMode {
    /// User mode.
    UMV,
    /// Supervisor mode.
    SMV,
    /// Machine mode.
    MMV,
}

impl Sealed for PrivilegeMode {

}

impl PrivilegeMode {
    /// The pattern that stands for this mode in the previous-privilege field
    /// of `mstatus`. That of machine mode fills the field.
    pub open spec fn field(self) -> u64 {
        match self {
            PrivilegeMode::UMV => 0b00u64 << 11,
            PrivilegeMode::SMV => 0b01u64 << 11,
            PrivilegeMode::MMV => 0b11u64 << 11,
        }
    }
}

impl MStatusField for PrivilegeMode {
    open spec fn bits(self) -> u64 {
        self.field()
    }

    fn to_u64(self) -> (word: u64) {
        match self {
            PrivilegeMode::UMV => 0b00u64 << 11,
            PrivilegeMode::SMV => 0b01u64 << 11,
            PrivilegeMode::MMV => 0b11u64 << 11,
        }
    }

    proof fn lemma_names_previous_privilege(self) {
        assert({
            let mask = 0b11u64 << 11;
            &&& (0b00u64 << 11) & mask == 0b00u64 << 11
            &&& (0b01u64 << 11) & mask == 0b01u64 << 11
            &&& (0b11u64 << 11) & mask == 0b11u64 << 11
        }) by (bit_vector);
    }
}

/// Global interrupt enable, one bit for each privilege level.
#[derive(Clone, Copy, Debug, PartialEq, Eq)]
pub enum InterruptEnable {
    /// User interrupt enable.
    UIE,
    /// Supervisor interrupt enable.
    SIE,
    /// Machine interrupt enable.
    MIE,
}

impl Sealed for InterruptEnable {

}

impl MStatusField for InterruptEnable {
    open spec fn bits(self) -> u64 {
        match self {
            InterruptEnable::UIE => 1u64 << 0,
            InterruptEnable::SIE => 1u64 << 1,
            InterruptEnable::MIE => 1u64 << 3,
        }
    }

    fn to_u64(self) -> (word: u64) {
        match self {
            InterruptEnable::UIE => 1u64 << 0,
            InterruptEnable::SIE => 1u64 << 1,
            InterruptEnable::MIE => 1u64 << 3,
        }
    }

    proof fn lemma_names_previous_privilege(self) {
        assert({
            let mask = 0b11u64 << 11;
            &&& (1u64 << 0) & mask == 0b00u64 << 11
            &&& (1u64 << 1) & mask == 0b00u64 << 11
            &&& (1u64 << 3) & mask == 0b00u64 << 11
        }) by (bit_vector);
    }
}

/// The interrupt enable that a privilege return restores, one bit for each
/// privilege level.
#[derive(Clone, Copy, Debug, PartialEq, Eq)]
pub enum PreviousInterruptEnable {
    /// User previous interrupt enable.
    UPIE,
    /// Supervisor previous interrupt enable.
    SPIE,
    /// Machine previous interrupt enable.
    MPIE,
}

impl Sealed for PreviousInterruptEnable {

}

impl MStatusField for PreviousInterruptEnable {
    open spec fn bits(self) -> u64 {
        match self {
            PreviousInterruptEnable::UPIE => 1u64 << 4,
            PreviousInterruptEnable::SPIE => 1u64 << 5,
            PreviousInterruptEnable::MPIE => 1u64 << 7,
        }
    }

    fn to_u64(self) -> (word: u64) {
        match self {
            PreviousInterruptEnable::UPIE => 1u64 << 4,
            PreviousInterruptEnable::SPIE => 1u64 << 5,
            PreviousInterruptEnable::MPIE => 1u64 << 7,
        }
    }

    proof fn lemma_names_previous_privilege(self) {
        assert({
            let mask = 0b11u64 << 11;
            &&& (1u64 << 4) & mask == 0b00u64 << 11
            &&& (1u64 << 5) & mask == 0b00u64 << 11
            &&& (1u64 << 7) & mask == 0b00u64 << 11
        }) by (bit_vector);
    }
}

/// State of the floating-point unit's context.
#[derive(Clone, Copy, Debug, PartialEq, Eq)]
pub enum FloatingPointStatus {
    /// The unit is off.
    OFF,
    /// The context holds its initial values.
    INITIAL,
    /// The context matches what was last saved.
    CLEAN,
    /// The context has changed since it was last saved.
    DIRTY,
}

impl Sealed for FloatingPointStatus {

}

impl MStatusField for FloatingPointStatus {
    open spec fn bits(self) -> u64 {
        match self {
            FloatingPointStatus::OFF => 0b00u64 << 13,
            FloatingPointStatus::INITIAL => 0b01u64 << 13,
            FloatingPointStatus::CLEAN => 0b10u64 << 13,
            FloatingPointStatus::DIRTY => 0b11u64 << 13,
        }
    }

    fn to_u64(self) -> (word: u64) {
        match self {
            FloatingPointStatus::OFF => 0b00u64 << 13,
            FloatingPointStatus::INITIAL => 0b01u64 << 13,
            FloatingPointStatus::CLEAN => 0b10u64 << 13,
            FloatingPointStatus::DIRTY => 0b11u64 << 13,
        }
    }

    proof fn lemma_names_previous_privilege(self) {
        assert({
            let mask = 0b11u64 << 11;
            &&& (0b00u64 << 13) & mask == 0b00u64 << 11
            &&& (0b01u64 << 13) & mask == 0b00u64 << 11
            &&& (0b10u64 << 13) & mask == 0b00u64 << 11
            &&& (0b11u64 << 13) & mask == 0b00u64 << 11
        }) by (bit_vector);
    }
}

/// State of the context of further user-mode extensions.
#[derive(Clone, Copy, Debug, PartialEq, Eq)]
pub enum ExtensionStatus {
    /// The extensions are off.
    OFF,
    /// The context holds its initial values.
    INITIAL,
    /// The context matches what was last saved.
    CLEAN,
    /// The context has changed since it was last saved.
    DIRTY,
}

impl Sealed for ExtensionStatus {

}

impl MStatusField for ExtensionStatus {
    open spec fn bits(self) -> u64 {
        match self {
            ExtensionStatus::OFF => 0b00u64 << 15,
            ExtensionStatus::INITIAL => 0b01u64 << 15,
            ExtensionStatus::CLEAN => 0b10u64 << 15,
            ExtensionStatus::DIRTY => 0b11u64 << 15,
        }
    }

    fn to_u64(self) -> (word: u64) {
        match self {
            ExtensionStatus::OFF => 0b00u64 << 15,
            ExtensionStatus::INITIAL => 0b01u64 << 15,
            ExtensionStatus::CLEAN => 0b10u64 << 15,
            ExtensionStatus::DIRTY => 0b11u64 << 15,
        }
    }

    proof fn lemma_names_previous_privilege(self) {
        assert({
            let mask = 0b11u64 << 11;
            &&& (0b00u64 << 15) & mask == 0b00u64 << 11
            &&& (0b01u64 << 15) & mask == 0b00u64 << 11
            &&& (0b10u64 << 15) & mask == 0b00u64 << 11
            &&& (0b11u64 << 15) & mask == 0b00u64 << 11
        }) by (bit_vector);
    }
}

/// Single bits of `mstatus` that change how memory is accessed and which
/// instructions trap.
#[derive(Clone, Copy, Debug, PartialEq, Eq)]
pub enum AdditionalStatus {
    /// Modify privilege: loads and stores run as the previous privilege mode.
    MPRV,
    /// Supervisor may access user memory.
    SUM,
    /// Make executable pages readable.
    MXR,
    /// Trap virtual-memory operations.
    TVM,
    /// Timeout wait.
    TW,
    /// Trap the supervisor-level privilege return.
    TSR,
}

impl Sealed for AdditionalStatus {

}

impl MStatusField for AdditionalStatus {
    open spec fn bits(self) -> u64 {
        match self {
            AdditionalStatus::MPRV => 1u64 << 17,
            AdditionalStatus::SUM => 1u64 << 18,
            AdditionalStatus::MXR => 1u64 << 19,
            AdditionalStatus::TVM => 1u64 << 20,
            AdditionalStatus::TW => 1u64 << 21,
            AdditionalStatus::TSR => 1u64 << 22,
        }
    }

    fn to_u64(self) -> (word: u64) {
        match self {
            AdditionalStatus::MPRV => 1u64 << 17,
            AdditionalStatus::SUM => 1u64 << 18,
            AdditionalStatus::MXR => 1u64 << 19,
            AdditionalStatus::TVM => 1u64 << 20,
            AdditionalStatus::TW => 1u64 << 21,
            AdditionalStatus::TSR => 1u64 << 22,
        }
    }

    proof fn lemma_names_previous_privilege(self) {
        assert({
            let mask = 0b11u64 << 11;
            &&& (1u64 << 17) & mask == 0b00u64 << 11
            &&& (1u64 << 18) & mask == 0b00u64 << 11
            &&& (1u64 << 19) & mask == 0b00u64 << 11
            &&& (1u64 << 20) & mask == 0b00u64 << 11
            &&& (1u64 << 21) & mask == 0b00u64 << 11
            &&& (1u64 << 22) & mask == 0b00u64 << 11
        }) by (bit_vector);
    }
}

/// The privilege mode that the previous-privilege field of an `mstatus` word
/// names, if it names one.
pub open spec fn previous_privilege(status: u64) -> Option<PrivilegeMode> {
    let field = status & PrivilegeMode::MMV.field();
    if field == PrivilegeMode::UMV.field() {
        Some(PrivilegeMode::UMV)
    } else if field == PrivilegeMode::SMV.field() {
        Some(PrivilegeMode::SMV)
    } else if field == PrivilegeMode::MMV.field() {
        Some(PrivilegeMode::MMV)
    } else {
        None
    }
}

/// What a machine-level privilege return leaves in `mstatus`: the interrupt
/// enable takes the value of the previous interrupt enable, which is then
/// set; the previous privilege becomes user mode; and unless the return went
/// to machine mode, the modify-privilege bit is cleared.
pub open spec fn status_after_return(status: u64) -> u64 {
    let restored: u64 = if status & PreviousInterruptEnable::MPIE.bits() != 0 {
        InterruptEnable::MIE.bits()
    } else {
        0
    };
    let kept = status & !(InterruptEnable::MIE.bits() | PrivilegeMode::MMV.field());
    let kept = if status & PrivilegeMode::MMV.field() == PrivilegeMode::MMV.field() {
        kept
    } else {
        kept & !AdditionalStatus::MPRV.bits()
    };
    kept | PreviousInterruptEnable::MPIE.bits() | restored
}

/// After a machine-level privilege return the previous-privilege field names
/// user mode, whatever `mstatus` held before.
pub proof fn lemma_return_leaves_user_as_previous(status: u64)
    ensures
        previous_privilege(status_after_return(status)) == Some(PrivilegeMode::UMV),
{
    assert({
        let mask = 0b11u64 << 11;
        let kept = status & !((1u64 << 3) | mask);
        let cleared = kept & !(1u64 << 17);
        &&& (kept | (1u64 << 7) | (1u64 << 3)) & mask == 0b00u64 << 11
        &&& (kept | (1u64 << 7) | 0) & mask == 0b00u64 << 11
        &&& (cleared | (1u64 << 7) | (1u64 << 3)) & mask == 0b00u64 << 11
        &&& (cleared | (1u64 << 7) | 0) & mask == 0b00u64 << 11
    }) by (bit_vector);
}

/// Reads `mstatus`. Its previous-privilege field always names a mode.
pub fn read_mstatus(hart: &Hart) -> (word: u64)
    ensures
        word == hart@.csrs[Csr::Mstatus],
        previous_privilege(word) is Some,
{
    hart.read(Csr::Mstatus)
}

/// Replaces the whole of `mstatus` by the bits of `val`; nothing else changes.
pub fn write_mstatus<T: MStatusField>(hart: &mut Hart, val: T)
    ensures
        final(hart)@ == old(hart)@.with_csr(Csr::Mstatus, val.bits()),
{
    proof {
        val.lemma_names_previous_privilege();
    }
    hart.write(Csr::Mstatus, val.to_u64());
}

/// A value that may be written to `medeleg`.
pub trait MedelegField: Sized + Sealed {
    /// The bit pattern of this value, already shifted into place.
    spec fn bits(self) -> u64;

    /// The bit pattern of this value, already shifted into place.
    fn to_u64(self) -> (word: u64)
        ensures
            word == self.bits(),
    ;
}

/// Two values for `medeleg` written at once: the union of their bits.
impl<A: MedelegField, B: MedelegField> MedelegField for (A, B) {
    open spec fn bits(self) -> u64 {
        self.0.bits() | self.1.bits()
    }

    fn to_u64(self) -> (word: u64) {
        self.0.to_u64() | self.1.to_u64()
    }
}

/// An exception cause to route to supervisor mode: the bit whose number is
/// the cause's code. A cause whose bit is clear traps to machine mode.
#[derive(Clone, Copy, Debug, PartialEq, Eq)]
pub enum MedelegVal {
    /// Cause 0.
    InstructionAddressMisaligned,
    /// Cause 1.
    InstructionAccessFault,
    /// Cause 2.
    IllegalInstruction,
    /// Cause 3.
    Breakpoint,
    /// Cause 4.
    LoadAddressMisaligned,
    /// Cause 5.
    LoadAccessFault,
    /// Cause 6.
    StoreAddressMisaligned,
    /// Cause 7.
    StoreAccessFault,
    /// Cause 8.
    EnvironmentCallFromUMode,
    /// Cause 9.
    EnvironmentCallFromSMode,
    /// Cause 12.
    InstructionPageFault,
    /// Cause 13.
    LoadPageFault,
    /// Cause 15.
    StorePageFault,
}

impl Sealed for MedelegVal {

}

impl MedelegVal {
    /// The code that the architecture gives this cause.
    pub open spec fn code(self) -> u64 {
        match self {
            MedelegVal::InstructionAddressMisaligned => 0,
            MedelegVal::InstructionAccessFault => 1,
            MedelegVal::IllegalInstruction => 2,
            MedelegVal::Breakpoint => 3,
            MedelegVal::LoadAddressMisaligned => 4,
            MedelegVal::LoadAccessFault => 5,
            MedelegVal::StoreAddressMisaligned => 6,
            MedelegVal::StoreAccessFault => 7,
            MedelegVal::EnvironmentCallFromUMode => 8,
            MedelegVal::EnvironmentCallFromSMode => 9,
            MedelegVal::InstructionPageFault => 12,
            MedelegVal::LoadPageFault => 13,
            MedelegVal::StorePageFault => 15,
        }
    }
}

impl MedelegField for MedelegVal {
    open spec fn bits(self) -> u64 {
        1u64 << self.code()
    }

    fn to_u64(self) -> (word: u64) {
        match self {
            MedelegVal::InstructionAddressMisaligned => 1u64 << 0,
            MedelegVal::InstructionAccessFault => 1u64 << 1,
            MedelegVal::IllegalInstruction => 1u64 << 2,
            MedelegVal::Breakpoint => 1u64 << 3,
            MedelegVal::LoadAddressMisaligned => 1u64 << 4,
            MedelegVal::LoadAccessFault => 1u64 << 5,
            MedelegVal::StoreAddressMisaligned => 1u64 << 6,
            MedelegVal::StoreAccessFault => 1u64 << 7,
            MedelegVal::EnvironmentCallFromUMode => 1u64 << 8,
            MedelegVal::EnvironmentCallFromSMode => 1u64 << 9,
            MedelegVal::InstructionPageFault => 1u64 << 12,
            MedelegVal::LoadPageFault => 1u64 << 13,
            MedelegVal::StorePageFault => 1u64 << 15,
        }
    }
}

/// Reads `medeleg`.
pub fn read_medeleg(hart: &Hart) -> (word: u64)
    ensures
        word == hart@.csrs[Csr::Medeleg],
{
    hart.read(Csr::Medeleg)
}

/// Replaces the whole of `medeleg` by the bits of `val`; nothing else changes.
pub fn write_medeleg<T: MedelegField>(hart: &mut Hart, val: T)
    ensures
        final(hart)@ == old(hart)@.with_csr(Csr::Medeleg, val.bits()),
{
    hart.write(Csr::Medeleg, val.to_u64());
}

/// A value that may be written to `mideleg`.
pub trait MidelegField: Sized + Sealed {
    /// The bit pattern of this value, already shifted into place.
    spec fn bits(self) -> u64;

    /// The bit pattern of this value, already shifted into place.
    fn to_u64(self) -> (word: u64)
        ensures
            word == self.bits(),
    ;
}

/// Two values for `mideleg` written at once: the union of their bits.
impl<A: MidelegField, B: MidelegField> MidelegField for (A, B) {
    open spec fn bits(self) -> u64 {
        self.0.bits() | self.1.bits()
    }

    fn to_u64(self) -> (word: u64) {
        self.0.to_u64() | self.1.to_u64()
    }
}

/// A supervisor-level interrupt to route to supervisor mode.
#[derive(Clone, Copy, Debug, PartialEq, Eq)]
pub enum MidelegVal {
    /// Software interrupt.
    SSIE,
    /// Timer interrupt.
    STIE,
    /// External interrupt.
    SEIE,
}

impl Sealed for MidelegVal {

}

impl MidelegVal {
    /// The code that the architecture gives this cause.
    pub open spec fn code(self) -> u64 {
        match self {
            MidelegVal::SSIE => 1,
            MidelegVal::STIE => 5,
            MidelegVal::SEIE => 9,
        }
    }
}

impl MidelegField for MidelegVal {
    open spec fn bits(self) -> u64 {
        1u64 << self.code()
    }

    fn to_u64(self) -> (word: u64) {
        match self {
            MidelegVal::SSIE => 1u64 << 1,
            MidelegVal::STIE => 1u64 << 5,
            MidelegVal::SEIE => 1u64 << 9,
        }
    }
}

/// Reads `mideleg`.
pub fn read_mideleg(hart: &Hart) -> (word: u64)
    ensures
        word == hart@.csrs[Csr::Mideleg],
{
    hart.read(Csr::Mideleg)
}

/// Replaces the whole of `mideleg` by the bits of `val`; nothing else changes.
pub fn write_mideleg<T: MidelegField>(hart: &mut Hart, val: T)
    ensures
        final(hart)@ == old(hart)@.with_csr(Csr::Mideleg, val.bits()),
{
    hart.write(Csr::Mideleg, val.to_u64());
}

/// Whether a `medeleg` word routes the exception `cause` to supervisor mode.
pub open spec fn routes_exception(medeleg: u64, cause: MedelegVal) -> bool {
    medeleg & cause.bits() != 0
}

/// Whether a `mideleg` word routes the interrupt `cause` to supervisor mode.
pub open spec fn routes_interrupt(mideleg: u64, cause: MidelegVal) -> bool {
    mideleg & cause.bits() != 0
}

/// Every exception cause has a bit of its own: the pattern of one cause
/// routes that cause and no other.
pub proof fn lemma_one_bit_per_exception(written: MedelegVal, cause: MedelegVal)
    ensures
        routes_exception(written.bits(), cause) <==> written == cause,
{
    let i = written.code();
    let j = cause.code();
    assert(((1u64 << i) & (1u64 << j) != 0) <==> i == j) by (bit_vector)
        requires
            i < 64,
            j < 64,
    ;
}

/// Every interrupt cause has a bit of its own: the pattern of one cause
/// routes that cause and no other.
pub proof fn lemma_one_bit_per_interrupt(written: MidelegVal, cause: MidelegVal)
    ensures
        routes_interrupt(written.bits(), cause) <==> written == cause,
{
    let i = written.code();
    let j = cause.code();
    assert(((1u64 << i) & (1u64 << j) != 0) <==> i == j) by (bit_vector)
        requires
            i < 64,
            j < 64,
    ;
}

/// Two values written at once route exactly the causes that either routes.
pub proof fn lemma_union_routes_exceptions<A: MedelegField, B: MedelegField>(
    a: A,
    b: B,
    cause: MedelegVal,
)
    ensures
        routes_exception((a, b).bits(), cause) <==> routes_exception(a.bits(), cause)
            || routes_exception(b.bits(), cause),
{
    let x = a.bits();
    let y = b.bits();
    let z = cause.bits();
    assert(((x | y) & z != 0) <==> (x & z != 0 || y & z != 0)) by (bit_vector);
}

/// Two values written at once route exactly the causes that either routes.
pub proof fn lemma_union_routes_interrupts<A: MidelegField, B: MidelegField>(
    a: A,
    b: B,
    cause: MidelegVal,
)
    ensures
        routes_interrupt((a, b).bits(), cause) <==> routes_interrupt(a.bits(), cause)
            || routes_interrupt(b.bits(), cause),
{
    let x = a.bits();
    let y = b.bits();
    let z = cause.bits();
    assert(((x | y) & z != 0) <==> (x & z != 0 || y & z != 0)) by (bit_vector);
}

/// Each delegation register reads back the pattern written to it, whether
/// the other one was written before or after.
pub proof fn lemma_delegation_round_trip<E: MedelegField, I: MidelegField>(
    hart: HartView,
    exceptions: E,
    interrupts: I,
)
    ensures
        hart.with_csr(Csr::Medeleg, exceptions.bits()).csrs[Csr::Medeleg] == exceptions.bits(),
        hart.with_csr(Csr::Mideleg, interrupts.bits()).csrs[Csr::Mideleg] == interrupts.bits(),
        hart.with_csr(Csr::Medeleg, exceptions.bits()).with_csr(
            Csr::Mideleg,
            interrupts.bits(),
        ).csrs[Csr::Medeleg] == exceptions.bits(),
        hart.with_csr(Csr::Mideleg, interrupts.bits()).with_csr(
            Csr::Medeleg,
            exceptions.bits(),
        ).csrs[Csr::Mideleg] == interrupts.bits(),
{
}

/// A value that may be written to `mie`.
pub trait MieField: Sized + Sealed {
    /// The bit pattern of this value, already shifted into place.
    spec fn bits(self) -> u64;

    /// The bit pattern of this value, already shifted into place.
    fn to_u64(self) -> (word: u64)
        ensures
            word == self.bits(),
    ;
}

/// Two values for `mie` written at once: the union of their bits.
impl<A: MieField, B: MieField> MieField for (A, B) {
    open spec fn bits(self) -> u64 {
        self.0.bits() | self.1.bits()
    }

    fn to_u64(self) -> (word: u64) {
        self.0.to_u64() | self.1.to_u64()
    }
}

/// An interrupt source to enable in machine mode.
#[derive(Clone, Copy, Debug, PartialEq, Eq)]
pub enum MieVal {
    /// Machine software interrupt.
    MSIE,
    /// Machine timer interrupt.
    MTIE,
    /// Machine external interrupt.
    MEIE,
    /// Supervisor software interrupt.
    SSIE,
    /// Supervisor timer interrupt.
    STIE,
    /// Supervisor external interrupt.
    SEIE,
}

impl Sealed for MieVal {

}

impl MieField for MieVal {
    open spec fn bits(self) -> u64 {
        match self {
            MieVal::MSIE => 1u64 << 3,
            MieVal::MTIE => 1u64 << 7,
            MieVal::MEIE => 1u64 << 11,
            MieVal::SSIE => 1u64 << 1,
            MieVal::STIE => 1u64 << 5,
            MieVal::SEIE => 1u64 << 9,
        }
    }

    fn to_u64(self) -> (word: u64) {
        match self {
            MieVal::MSIE => 1u64 << 3,
            MieVal::MTIE => 1u64 << 7,
            MieVal::MEIE => 1u64 << 11,
            MieVal::SSIE => 1u64 << 1,
            MieVal::STIE => 1u64 << 5,
            MieVal::SEIE => 1u64 << 9,
        }
    }
}

/// Reads `mie`.
pub fn read_mie(hart: &Hart) -> (word: u64)
    ensures
        word == hart@.csrs[Csr::Mie],
{
    hart.read(Csr::Mie)
}

/// Replaces the whole of `mie` by the bits of `val`; nothing else changes.
pub fn write_mie<T: MieField>(hart: &mut Hart, val: T)
    ensures
        final(hart)@ == old(hart)@.with_csr(Csr::Mie, val.bits()),
{
    hart.write(Csr::Mie, val.to_u64());
}

/// A value that may be written to `mcounteren`.
pub trait MCounterenField: Sized + Sealed {
    /// The bit pattern of this value, already shifted into place.
    spec fn bits(self) -> u64;

    /// The bit pattern of this value, already shifted into place.
    fn to_u64(self) -> (word: u64)
        ensures
            word == self.bits(),
    ;
}

/// Two values for `mcounteren` written at once: the union of their bits.
impl<A: MCounterenField, B: MCounterenField> MCounterenField for (A, B) {
    open spec fn bits(self) -> u64 {
        self.0.bits() | self.1.bits()
    }

    fn to_u64(self) -> (word: u64) {
        self.0.to_u64() | self.1.to_u64()
    }
}

/// A counter to make readable from the lower privilege modes: the bit whose
/// number is the counter's.
#[derive(Clone, Copy, Debug, PartialEq, Eq)]
pub enum MCounterenVal {
    /// Cycle counter.
    CY,
    /// Timer.
    TM,
    /// Instructions-retired counter.
    IR,
    /// Performance-monitoring counter 3.
    HPM3,
    /// Performance-monitoring counter 4.
    HPM4,
    /// Performance-monitoring counter 5.
    HPM5,
    /// Performance-monitoring counter 6.
    HPM6,
    /// Performance-monitoring counter 7.
    HPM7,
    /// Performance-monitoring counter 8.
    HPM8,
    /// Performance-monitoring counter 9.
    HPM9,
    /// Performance-monitoring counter 10.
    HPM10,
    /// Performance-monitoring counter 11.
    HPM11,
    /// Performance-monitoring counter 12.
    HPM12,
    /// Performance-monitoring counter 13.
    HPM13,
    /// Performance-monitoring counter 14.
    HPM14,
    /// Performance-monitoring counter 15.
    HPM15,
    /// Performance-monitoring counter 16.
    HPM16,
    /// Performance-monitoring counter 17.
    HPM17,
    /// Performance-monitoring counter 18.
    HPM18,
    /// Performance-monitoring counter 19.
    HPM19,
    /// Performance-monitoring counter 20.
    HPM20,
    /// Performance-monitoring counter 21.
    HPM21,
    /// Performance-monitoring counter 22.
    HPM22,
    /// Performance-monitoring counter 23.
    HPM23,
    /// Performance-monitoring counter 24.
    HPM24,
    /// Performance-monitoring counter 25.
    HPM25,
    /// Performance-monitoring counter 26.
    HPM26,
    /// Performance-monitoring counter 27.
    HPM27,
    /// Performance-monitoring counter 28.
    HPM28,
    /// Performance-monitoring counter 29.
    HPM29,
    /// Performance-monitoring counter 30.
    HPM30,
    /// Performance-monitoring counter 31.
    HPM31,
}

impl Sealed for MCounterenVal {

}

impl MCounterenField for MCounterenVal {
    open spec fn bits(self) -> u64 {
        match self {
            MCounterenVal::CY => 1u64 << 0,
            MCounterenVal::TM => 1u64 << 1,
            MCounterenVal::IR => 1u64 << 2,
            MCounterenVal::HPM3 => 1u64 << 3,
            MCounterenVal::HPM4 => 1u64 << 4,
            MCounterenVal::HPM5 => 1u64 << 5,
            MCounterenVal::HPM6 => 1u64 << 6,
            MCounterenVal::HPM7 => 1u64 << 7,
            MCounterenVal::HPM8 => 1u64 << 8,
            MCounterenVal::HPM9 => 1u64 << 9,
            MCounterenVal::HPM10 => 1u64 << 10,
            MCounterenVal::HPM11 => 1u64 << 11,
            MCounterenVal::HPM12 => 1u64 << 12,
            MCounterenVal::HPM13 => 1u64 << 13,
            MCounterenVal::HPM14 => 1u64 << 14,
            MCounterenVal::HPM15 => 1u64 << 15,
            MCounterenVal::HPM16 => 1u64 << 16,
            MCounterenVal::HPM17 => 1u64 << 17,
            MCounterenVal::HPM18 => 1u64 << 18,
            MCounterenVal::HPM19 => 1u64 << 19,
            MCounterenVal::HPM20 => 1u64 << 20,
            MCounterenVal::HPM21 => 1u64 << 21,
            MCounterenVal::HPM22 => 1u64 << 22,
            MCounterenVal::HPM23 => 1u64 << 23,
            MCounterenVal::HPM24 => 1u64 << 24,
            MCounterenVal::HPM25 => 1u64 << 25,
            MCounterenVal::HPM26 => 1u64 << 26,
            MCounterenVal::HPM27 => 1u64 << 27,
            MCounterenVal::HPM28 => 1u64 << 28,
            MCounterenVal::HPM29 => 1u64 << 29,
            MCounterenVal::HPM30 => 1u64 << 30,
            MCounterenVal::HPM31 => 1u64 << 31,
        }
    }

    fn to_u64(self) -> (word: u64) {
        match self {
            MCounterenVal::CY => 1u64 << 0,
            MCounterenVal::TM => 1u64 << 1,
            MCounterenVal::IR => 1u64 << 2,
            MCounterenVal::HPM3 => 1u64 << 3,
            MCounterenVal::HPM4 => 1u64 << 4,
            MCounterenVal::HPM5 => 1u64 << 5,
            MCounterenVal::HPM6 => 1u64 << 6,
            MCounterenVal::HPM7 => 1u64 << 7,
            MCounterenVal::HPM8 => 1u64 << 8,
            MCounterenVal::HPM9 => 1u64 << 9,
            MCounterenVal::HPM10 => 1u64 << 10,
            MCounterenVal::HPM11 => 1u64 << 11,
            MCounterenVal::HPM12 => 1u64 << 12,
            MCounterenVal::HPM13 => 1u64 << 13,
            MCounterenVal::HPM14 => 1u64 << 14,
            MCounterenVal::HPM15 => 1u64 << 15,
            MCounterenVal::HPM16 => 1u64 << 16,
            MCounterenVal::HPM17 => 1u64 << 17,
            MCounterenVal::HPM18 => 1u64 << 18,
            MCounterenVal::HPM19 => 1u64 << 19,
            MCounterenVal::HPM20 => 1u64 << 20,
            MCounterenVal::HPM21 => 1u64 << 21,
            MCounterenVal::HPM22 => 1u64 << 22,
            MCounterenVal::HPM23 => 1u64 << 23,
            MCounterenVal::HPM24 => 1u64 << 24,
            MCounterenVal::HPM25 => 1u64 << 25,
            MCounterenVal::HPM26 => 1u64 << 26,
            MCounterenVal::HPM27 => 1u64 << 27,
            MCounterenVal::HPM28 => 1u64 << 28,
            MCounterenVal::HPM29 => 1u64 << 29,
            MCounterenVal::HPM30 => 1u64 << 30,
            MCounterenVal::HPM31 => 1u64 << 31,
        }
    }
}

/// Reads `mcounteren`.
pub fn read_mcounteren(hart: &Hart) -> (word: u64)
    ensures
        word == hart@.csrs[Csr::Mcounteren],
{
    hart.read(Csr::Mcounteren)
}

/// Replaces the whole of `mcounteren` by the bits of `val`; nothing else changes.
pub fn write_mcounteren<T: MCounterenField>(hart: &mut Hart, val: T)
    ensures
        final(hart)@ == old(hart)@.with_csr(Csr::Mcounteren, val.bits()),
{
    hart.write(Csr::Mcounteren, val.to_u64());
}

/// A value that may be written to `menvcfg`.
pub trait MenvcfgField: Sized + Sealed {
    /// The bit pattern of this value, already shifted into place.
    spec fn bits(self) -> u64;

    /// The bit pattern of this value, already shifted into place.
    fn to_u64(self) -> (word: u64)
        ensures
            word == self.bits(),
    ;
}

/// Two values for `menvcfg` written at once: the union of their bits.
impl<A: MenvcfgField, B: MenvcfgField> MenvcfgField for (A, B) {
    open spec fn bits(self) -> u64 {
        self.0.bits() | self.1.bits()
    }

    fn to_u64(self) -> (word: u64) {
        self.0.to_u64() | self.1.to_u64()
    }
}

/// A setting of the execution environment of the lower privilege modes.
#[derive(Clone, Copy, Debug, PartialEq, Eq)]
pub enum MenvcfgVal {
    /// Fast I/O memory.
    FIOM,
    /// Control block interrupt enable.
    CBIE,
    /// Control block zero enable.
    CBZE,
    /// Physical memory attributes.
    PMA,
    /// Physical memory attributes 1.
    PMA1,
    /// Physical memory attributes 2.
    PMA2,
    /// Physical memory attributes 3.
    PMA3,
    /// Physical memory attributes 4.
    PMA4,
    /// Physical memory attributes 5.
    PMA5,
    /// Physical memory attributes 6.
    PMA6,
    /// Physical memory attributes 7.
    PMA7,
    /// Physical memory attributes 8.
    PMA8,
    /// Physical memory attributes 9.
    PMA9,
    /// Physical memory attributes 10.
    PMA10,
    /// Physical memory attributes 11.
    PMA11,
    /// Physical memory attributes 12.
    PMA12,
    /// Physical memory attributes 13.
    PMA13,
    /// Physical memory attributes 14.
    PMA14,
    /// Physical memory attributes 15.
    PMA15,
}

impl Sealed for MenvcfgVal {

}

impl MenvcfgField for MenvcfgVal {
    open spec fn bits(self) -> u64 {
        match self {
            MenvcfgVal::FIOM => 1u64 << 0,
            MenvcfgVal::CBIE => 1u64 << 1,
            MenvcfgVal::CBZE => 1u64 << 2,
            MenvcfgVal::PMA => 1u64 << 3,
            MenvcfgVal::PMA1 => 1u64 << 4,
            MenvcfgVal::PMA2 => 1u64 << 5,
            MenvcfgVal::PMA3 => 1u64 << 6,
            MenvcfgVal::PMA4 => 1u64 << 7,
            MenvcfgVal::PMA5 => 1u64 << 8,
            MenvcfgVal::PMA6 => 1u64 << 9,
            MenvcfgVal::PMA7 => 1u64 << 10,
            MenvcfgVal::PMA8 => 1u64 << 11,
            MenvcfgVal::PMA9 => 1u64 << 12,
            MenvcfgVal::PMA10 => 1u64 << 13,
            MenvcfgVal::PMA11 => 1u64 << 14,
            MenvcfgVal::PMA12 => 1u64 << 15,
            MenvcfgVal::PMA13 => 1u64 << 16,
            MenvcfgVal::PMA14 => 1u64 << 17,
            MenvcfgVal::PMA15 => 1u64 << 18,
        }
    }

    fn to_u64(self) -> (word: u64) {
        match self {
            MenvcfgVal::FIOM => 1u64 << 0,
            MenvcfgVal::CBIE => 1u64 << 1,
            MenvcfgVal::CBZE => 1u64 << 2,
            MenvcfgVal::PMA => 1u64 << 3,
            MenvcfgVal::PMA1 => 1u64 << 4,
            MenvcfgVal::PMA2 => 1u64 << 5,
            MenvcfgVal::PMA3 => 1u64 << 6,
            MenvcfgVal::PMA4 => 1u64 << 7,
            MenvcfgVal::PMA5 => 1u64 << 8,
            MenvcfgVal::PMA6 => 1u64 << 9,
            MenvcfgVal::PMA7 => 1u64 << 10,
            MenvcfgVal::PMA8 => 1u64 << 11,
            MenvcfgVal::PMA9 => 1u64 << 12,
            MenvcfgVal::PMA10 => 1u64 << 13,
            MenvcfgVal::PMA11 => 1u64 << 14,
            MenvcfgVal::PMA12 => 1u64 << 15,
            MenvcfgVal::PMA13 => 1u64 << 16,
            MenvcfgVal::PMA14 => 1u64 << 17,
            MenvcfgVal::PMA15 => 1u64 << 18,
        }
    }
}

/// Reads `menvcfg`.
pub fn read_menvcfg(hart: &Hart) -> (word: u64)
    ensures
        word == hart@.csrs[Csr::Menvcfg],
{
    hart.read(Csr::Menvcfg)
}

/// Replaces the whole of `menvcfg` by the bits of `val`; nothing else changes.
pub fn write_menvcfg<T: MenvcfgField>(hart: &mut Hart, val: T)
    ensures
        final(hart)@ == old(hart)@.with_csr(Csr::Menvcfg, val.bits()),
{
    hart.write(Csr::Menvcfg, val.to_u64());
}

/// Reads `mepc`, the address a machine-level privilege return jumps to.
pub fn read_mepc(hart: &Hart) -> (word: u64)
    ensures
        word == hart@.csrs[Csr::Mepc],
{
    hart.read(Csr::Mepc)
}

/// Replaces the whole of `mepc` by a validated address; nothing else changes.
pub fn write_mepc(hart: &mut Hart, addr: ValidAddress)
    ensures
        final(hart)@ == old(hart)@.with_csr(Csr::Mepc, word_of(addr@)),
{
    hart.write(Csr::Mepc, to_word(addr.get()));
}

/// Reads `mcycle`, the count of clock cycles since reset.
pub fn read_mcycle(hart: &Hart) -> (word: u64)
    ensures
        word == hart@.csrs[Csr::Mcycle],
{
    hart.read(Csr::Mcycle)
}

} // verus!
