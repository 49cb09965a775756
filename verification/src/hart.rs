//! A software model of one hart: its registers and what the privileged
//! instructions do to them.

use crate::boot::BootStage;
use crate::csr::Csr;
use crate::csr::RegisterFile;
use crate::machine::AdditionalStatus;
use crate::machine::InterruptEnable;
use crate::machine::MStatusField;
use crate::machine::PreviousInterruptEnable;
use crate::machine::PrivilegeMode;
use crate::machine::lemma_return_leaves_user_as_previous;
use crate::machine::previous_privilege;
use crate::machine::status_after_return;
use crate::validate::KERNEL_BASE_ADDRESS;
use crate::validate::ValidAddress;
use crate::validate::to_word;
use crate::validate::word_of;
use vstd::prelude::*;

verus! {

/// The state of a hart as contracts see it.
#[verifier::ext_equal]
pub struct HartView {
    /// The word in each control and status register.
    pub csrs: Map<Csr, u64>,
    /// The thread pointer, which carries the hart's identity across traps.
    pub tp: u64,
    /// The return address register.
    pub ra: u64,
    /// The address of the next instruction.
    pub pc: u64,
    /// The privilege mode the hart runs in.
    pub privilege: PrivilegeMode,
    /// How far the boot sequence has come.
    pub stage: BootStage,
    /// Whether the hart has been stopped for good.
    pub halted: bool,
    /// The `satp` word that the cached translations were made under.
    pub tlb_satp: u64,
}

impl HartView {
    /// A hart that has just left reset: machine mode, at the kernel base,
    /// registers as `RegisterFile::reset` gives them, everything else zero.
    pub open spec fn reset(hartid: u64) -> HartView {
        HartView {
            csrs: RegisterFile::reset(hartid),
            tp: 0,
            ra: 0,
            pc: word_of(KERNEL_BASE_ADDRESS),
            privilege: PrivilegeMode::MMV,
            stage: BootStage::Reset,
            halted: false,
            tlb_satp: 0,
        }
    }

    /// This state with the whole word of register `id` replaced by `word`.
    pub open spec fn with_csr(self, id: Csr, word: u64) -> HartView {
        HartView { csrs: self.csrs.insert(id, word), ..self }
    }

    /// Whether the cached translations are those of the current `satp`. Only
    /// then may the mapping that `satp` names be relied on.
    pub open spec fn translation_current(self) -> bool {
        self.tlb_satp == self.csrs[Csr::Satp]
    }

    /// A register reads back the word last written to it, and a write to one
    /// register leaves the word of every other as it was.
    pub proof fn lemma_write_then_read(self, id: Csr, word: u64, other: Csr)
        ensures
            self.with_csr(id, word).csrs[id] == word,
            other != id ==> self.with_csr(id, word).csrs[other] == self.csrs[other],
    {
    }

    /// A later write to a register wins over an earlier one: every write
    /// replaces the whole word.
    pub proof fn lemma_write_replaces(self, id: Csr, first: u64, second: u64)
        ensures
            self.with_csr(id, first).with_csr(id, second) == self.with_csr(id, second),
    {
        assert(self.csrs.insert(id, first).insert(id, second) =~= self.csrs.insert(id, second));
    }

    /// Once `satp` holds another word than the cached translations were made
    /// under, the translations are stale, and they stay so until a flush:
    /// no write to another register mends them.
    pub proof fn lemma_satp_update_needs_flush(self, satp: u64, id: Csr, word: u64)
        requires
            satp != self.tlb_satp,
            id != Csr::Satp,
        ensures
            !self.with_csr(Csr::Satp, satp).translation_current(),
            !self.with_csr(Csr::Satp, satp).with_csr(id, word).translation_current(),
    {
    }

    /// This state after a machine-level privilege return to `mode`: the hart
    /// runs in `mode` at the address that `mepc` held, and `mstatus` is as
    /// `status_after_return` gives it.
    pub open spec fn returned_to(self, mode: PrivilegeMode) -> HartView {
        HartView {
            csrs: self.csrs.insert(Csr::Mstatus, status_after_return(self.csrs[Csr::Mstatus])),
            pc: self.csrs[Csr::Mepc],
            privilege: mode,
            ..self
        }
    }

    /// This state after a machine-level privilege return to the mode that
    /// the previous-privilege field of `mstatus` names. A state in which the
    /// field names no mode stays as it is; no `Hart` is ever in such a state.
    pub open spec fn after_privilege_return(self) -> HartView {
        match previous_privilege(self.csrs[Csr::Mstatus]) {
            Some(mode) => self.returned_to(mode),
            None => self,
        }
    }
}

/// A simulated hart.
#[derive(Debug)]
pub struct Hart {
    csrs: RegisterFile,
    tp: u64,
    ra: u64,
    pc: u64,
    privilege: PrivilegeMode,
    stage: BootStage,
    halted: bool,
    tlb_satp: u64,
}

impl View for Hart {
    type V = HartView;

    closed spec fn view(&self) -> HartView {
        HartView {
            csrs: self.csrs@,
            tp: self.tp,
            ra: self.ra,
            pc: self.pc,
            privilege: self.privilege,
            stage: self.stage,
            halted: self.halted,
            tlb_satp: self.tlb_satp,
        }
    }
}

impl Hart {
    /// The previous-privilege field of `mstatus` always names a mode: only
    /// values of the `mstatus` family are ever written there.
    #[verifier::type_invariant]
    spec fn status_names_a_mode(self) -> bool {
        previous_privilege(self.csrs@[Csr::Mstatus]) is Some
    }

    /// A hart with id `hartid` that has just left reset.
    pub fn new(hartid: u64) -> (hart: Self)
        ensures
            hart@ == HartView::reset(hartid),
    {
        assert(0u64 & (0b11u64 << 11) == 0b00u64 << 11) by (bit_vector);
        Hart {
            csrs: RegisterFile::new(hartid),
            tp: 0,
            ra: 0,
            pc: to_word(KERNEL_BASE_ADDRESS),
            privilege: PrivilegeMode::MMV,
            stage: BootStage::Reset,
            halted: false,
            tlb_satp: 0,
        }
    }

    /// Reads register `id`. What `mstatus` holds names a previous privilege
    /// mode.
    pub fn read(&self, id: Csr) -> (word: u64)
        ensures
            self@.csrs.dom().contains(id),
            word == self@.csrs[id],
            id == Csr::Mstatus ==> previous_privilege(word) is Some,
    {
        proof {
            use_type_invariant(self);
        }
        self.csrs.read(id)
    }

    /// Replaces the whole word of register `id`; nothing else changes. This
    /// is the one place where a word reaches a register, and only the
    /// writers of this crate come here.
    pub(crate) fn write(&mut self, id: Csr, word: u64)
        requires
            id == Csr::Mstatus ==> previous_privilege(word) is Some,
        ensures
            final(self)@ == old(self)@.with_csr(id, word),
    {
        proof {
            use_type_invariant(&*self);
        }
        self.csrs.write(id, word);
    }

    /// Stops the hart for good; nothing else changes.
    pub fn halt(&mut self)
        ensures
            final(self)@ == (HartView { halted: true, ..old(self)@ }),
    {
        proof {
            use_type_invariant(&*self);
        }
        self.halted = true;
    }

    /// Records that the boot sequence has reached `stage`.
    pub(crate) fn enter(&mut self, stage: BootStage)
        ensures
            final(self)@ == (HartView { stage, ..old(self)@ }),
    {
        proof {
            use_type_invariant(&*self);
        }
        self.stage = stage;
    }

    /// Whether the hart has been stopped for good.
    pub fn is_halted(&self) -> (halted: bool)
        ensures
            halted == self@.halted,
    {
        self.halted
    }

    /// How far the boot sequence has come.
    pub fn stage(&self) -> (stage: BootStage)
        ensures
            stage == self@.stage,
    {
        self.stage
    }

    /// The privilege mode the hart runs in.
    pub fn privilege(&self) -> (mode: PrivilegeMode)
        ensures
            mode == self@.privilege,
    {
        self.privilege
    }

    /// The address of the next instruction.
    pub fn pc(&self) -> (pc: u64)
        ensures
            pc == self@.pc,
    {
        self.pc
    }

    /// Whether the cached translations are those of the current `satp`.
    pub fn translation_current(&self) -> (current: bool)
        ensures
            current == self@.translation_current(),
    {
        self.tlb_satp == self.csrs.read(Csr::Satp)
    }

    /// A hart holds a word for every register.
    pub proof fn lemma_registers_total(self)
        ensures
            self@.csrs.dom() == Set::<Csr>::full(),
    {
        self.csrs.lemma_total();
    }
}

/// Reads the thread pointer.
pub fn read_threadptr(hart: &Hart) -> (val: u64)
    ensures
        val == hart@.tp,
{
    hart.tp
}

/// Sets the thread pointer; nothing else changes.
pub fn write_threadptr(hart: &mut Hart, val: u64)
    ensures
        final(hart)@ == (HartView { tp: val, ..old(hart)@ }),
{
    proof {
        use_type_invariant(&*hart);
    }
    hart.tp = val;
}

/// Reads the return address register.
pub fn read_return_addr(hart: &Hart) -> (addr: u64)
    ensures
        addr == hart@.ra,
{
    hart.ra
}

/// Sets the return address register; nothing else changes.
pub fn write_return_addr(hart: &mut Hart, val: ValidAddress)
    ensures
        final(hart)@ == (HartView { ra: word_of(val@), ..old(hart)@ }),
{
    proof {
        use_type_invariant(&*hart);
    }
    hart.ra = to_word(val.get());
}

/// Drops every cached translation, so that the next ones are made under the
/// current `satp`; nothing else changes.
pub fn flush_tlb(hart: &mut Hart)
    ensures
        final(hart)@ == (HartView { tlb_satp: old(hart)@.csrs[Csr::Satp], ..old(hart)@ }),
        final(hart)@.translation_current(),
{
    proof {
        use_type_invariant(&*hart);
    }
    hart.tlb_satp = hart.csrs.read(Csr::Satp);
}

/// Returns from machine mode: the hart drops to the mode that the
/// previous-privilege field of `mstatus` names and goes on at the address in
/// `mepc`. Gives that mode.
pub fn privilege_return(hart: &mut Hart) -> (mode: PrivilegeMode)
    ensures
        previous_privilege(old(hart)@.csrs[Csr::Mstatus]) == Some(mode),
        final(hart)@ == old(hart)@.returned_to(mode),
        final(hart)@ == old(hart)@.after_privilege_return(),
{
    let status = hart.read(Csr::Mstatus);
    let mask = PrivilegeMode::MMV.to_u64();
    let field = status & mask;
    let mode = if field == PrivilegeMode::UMV.to_u64() {
        PrivilegeMode::UMV
    } else if field == PrivilegeMode::SMV.to_u64() {
        PrivilegeMode::SMV
    } else {
        PrivilegeMode::MMV
    };
    let mie = InterruptEnable::MIE.to_u64();
    let mpie = PreviousInterruptEnable::MPIE.to_u64();
    let restored: u64 = if status & mpie != 0 {
        mie
    } else {
        0
    };
    let mut kept = status & !(mie | mask);
    if field != mask {
        kept = kept & !AdditionalStatus::MPRV.to_u64();
    }
    let after = kept | mpie | restored;
    proof {
        use_type_invariant(&*hart);
        lemma_return_leaves_user_as_previous(status);
    }
    hart.pc = hart.read(Csr::Mepc);
    hart.privilege = mode;
    hart.write(Csr::Mstatus, after);
    mode
}

} // verus!
