//! The boot-time transition of one hart from machine mode to supervisor mode.

use crate::csr::Csr;
use crate::hart::Hart;
use crate::hart::HartView;
use crate::hart::privilege_return;
use crate::hart::write_threadptr;
use crate::machine::InterruptEnable;
use crate::machine::MStatusField;
use crate::machine::MedelegField;
use crate::machine::MidelegField;
use crate::machine::PreviousInterruptEnable;
use crate::machine::PrivilegeMode;
use crate::machine::previous_privilege;
use crate::machine::read_mhartid;
use crate::machine::status_after_return;
use crate::machine::write_medeleg;
use crate::machine::write_mepc;
use crate::machine::write_mideleg;
use crate::machine::write_mstatus;
use crate::validate::ValidAddress;
use crate::validate::address_in_window;
use crate::validate::word_of;
use vstd::prelude::*;

verus! {

/// How far a hart has come on its way from reset to supervisor mode. The
/// stages follow one another in the order written; there is no other path.
#[derive(Clone, Copy, Debug, PartialEq, Eq)]
pub enum BootStage {
    /// Nothing has been done yet.
    Reset,
    /// The hart's id has been read and kept in the thread pointer.
    HartIdentified,
    /// `mstatus` holds the state to restore on the privilege return.
    StatusConfigured,
    /// `medeleg` and `mideleg` route the chosen causes to supervisor mode.
    DelegationConfigured,
    /// `mepc` holds the supervisor entry point.
    EntryPointSet,
    /// The hart has dropped to supervisor mode. Terminal.
    SupervisorMode,
}

impl BootStage {
    /// Position of the stage in the sequence, from 0 for `Reset`.
    pub open spec fn rank(self) -> nat {
        match self {
            BootStage::Reset => 0,
            BootStage::HartIdentified => 1,
            BootStage::StatusConfigured => 2,
            BootStage::DelegationConfigured => 3,
            BootStage::EntryPointSet => 4,
            BootStage::SupervisorMode => 5,
        }
    }

    /// The stage that follows this one; the terminal stage follows itself.
    pub open spec fn successor(self) -> BootStage {
        match self {
            BootStage::Reset => BootStage::HartIdentified,
            BootStage::HartIdentified => BootStage::StatusConfigured,
            BootStage::StatusConfigured => BootStage::DelegationConfigured,
            BootStage::DelegationConfigured => BootStage::EntryPointSet,
            BootStage::EntryPointSet => BootStage::SupervisorMode,
            BootStage::SupervisorMode => BootStage::SupervisorMode,
        }
    }

    /// The stage that follows this one; the terminal stage follows itself.
    pub fn next(self) -> (stage: BootStage)
        ensures
            stage == self.successor(),
    {
        match self {
            BootStage::Reset => BootStage::HartIdentified,
            BootStage::HartIdentified => BootStage::StatusConfigured,
            BootStage::StatusConfigured => BootStage::DelegationConfigured,
            BootStage::DelegationConfigured => BootStage::EntryPointSet,
            BootStage::EntryPointSet => BootStage::SupervisorMode,
            BootStage::SupervisorMode => BootStage::SupervisorMode,
        }
    }

    /// Whether this is the stage at which the sequence ends.
    pub fn is_terminal(self) -> (terminal: bool)
        ensures
            terminal == (self is SupervisorMode),
    {
        match self {
            BootStage::SupervisorMode => true,
            _ => false,
        }
    }

    /// The stages form one line without a branch: every stage but the last
    /// is followed by the stage of the next rank, and the last by itself.
    pub proof fn lemma_one_line(self)
        ensures
            self.rank() <= 5,
            self is SupervisorMode <==> self.rank() == 5,
            !(self is SupervisorMode) ==> self.successor().rank() == self.rank() + 1,
            self is SupervisorMode ==> self.successor() == self,
    {
    }
}

/// Why a hart was not booted.
#[derive(Clone, Copy, Debug, PartialEq, Eq)]
pub enum BootError {
    /// The hart has left the reset stage before: it boots once only.
    AlreadyBooted,
    /// The hart has been halted and stays so.
    Halted,
    /// The supervisor entry point lies outside the kernel's physical window.
    /// The hart has been halted.
    InvalidEntryPoint,
}

/// What one boot is to set up.
#[derive(Debug)]
pub struct BootPlan<E, I> {
    /// Where supervisor mode begins to run.
    pub entry: ValidAddress,
    /// The exception causes that supervisor mode handles itself.
    pub exceptions: E,
    /// The interrupt causes that supervisor mode handles itself.
    pub interrupts: I,
}

/// What is done to the hart to move it on by one stage.
#[derive(Debug)]
pub enum BootAction<E, I> {
    /// Read `mhartid` and keep it in the thread pointer.
    IdentifyHart,
    /// Write to `mstatus` the mode to drop into and the interrupt enable to
    /// restore.
    ConfigureStatus { previous: PrivilegeMode, restore: PreviousInterruptEnable },
    /// Write the delegated causes to `medeleg` and `mideleg`.
    ConfigureDelegation { exceptions: E, interrupts: I },
    /// Write the entry point to `mepc`.
    SetEntryPoint { entry: ValidAddress },
    /// Return from machine mode.
    DropPrivilege,
}

impl<E: MedelegField, I: MidelegField> BootAction<E, I> {
    /// The state of a hart after the action was performed in state `hart`.
    pub open spec fn effect(self, hart: HartView) -> HartView {
        match self {
            BootAction::IdentifyHart => HartView { tp: hart.csrs[Csr::Mhartid], ..hart },
            BootAction::ConfigureStatus { previous, restore } => hart.with_csr(
                Csr::Mstatus,
                (previous, restore).bits(),
            ),
            BootAction::ConfigureDelegation { exceptions, interrupts } => hart.with_csr(
                Csr::Medeleg,
                exceptions.bits(),
            ).with_csr(Csr::Mideleg, interrupts.bits()),
            BootAction::SetEntryPoint { entry } => hart.with_csr(Csr::Mepc, word_of(entry@)),
            BootAction::DropPrivilege => hart.after_privilege_return(),
        }
    }
}

impl<E: MedelegField + Copy, I: MidelegField + Copy> BootPlan<E, I> {
    /// The action that moves a hart on from `stage`; none from the last.
    pub open spec fn step(self, stage: BootStage) -> Option<BootAction<E, I>> {
        match stage {
            BootStage::Reset => Some(BootAction::IdentifyHart),
            BootStage::HartIdentified => Some(
                BootAction::ConfigureStatus {
                    previous: PrivilegeMode::SMV,
                    restore: PreviousInterruptEnable::MPIE,
                },
            ),
            BootStage::StatusConfigured => Some(
                BootAction::ConfigureDelegation {
                    exceptions: self.exceptions,
                    interrupts: self.interrupts,
                },
            ),
            BootStage::DelegationConfigured => Some(BootAction::SetEntryPoint { entry: self.entry }),
            BootStage::EntryPointSet => Some(BootAction::DropPrivilege),
            BootStage::SupervisorMode => None,
        }
    }

    /// The action that moves a hart on from `stage`; none from the last.
    pub fn action(&self, stage: BootStage) -> (action: Option<BootAction<E, I>>)
        ensures
            action == self.step(stage),
    {
        match stage {
            BootStage::Reset => Some(BootAction::IdentifyHart),
            BootStage::HartIdentified => Some(
                BootAction::ConfigureStatus {
                    previous: PrivilegeMode::SMV,
                    restore: PreviousInterruptEnable::MPIE,
                },
            ),
            BootStage::StatusConfigured => Some(
                BootAction::ConfigureDelegation {
                    exceptions: self.exceptions,
                    interrupts: self.interrupts,
                },
            ),
            BootStage::DelegationConfigured => Some(BootAction::SetEntryPoint { entry: self.entry }),
            BootStage::EntryPointSet => Some(BootAction::DropPrivilege),
            BootStage::SupervisorMode => None,
        }
    }
}

/// Performs `action` on the simulated hart.
pub fn perform<E: MedelegField, I: MidelegField>(hart: &mut Hart, action: BootAction<E, I>)
    ensures
        final(hart)@ == action.effect(old(hart)@),
{
    match action {
        BootAction::IdentifyHart => {
            let id = read_mhartid(hart);
            write_threadptr(hart, id);
        },
        BootAction::ConfigureStatus { previous, restore } => {
            write_mstatus(hart, (previous, restore));
        },
        BootAction::ConfigureDelegation { exceptions, interrupts } => {
            write_medeleg(hart, exceptions);
            write_mideleg(hart, interrupts);
        },
        BootAction::SetEntryPoint { entry } => {
            write_mepc(hart, entry);
        },
        BootAction::DropPrivilege => {
            let _ = privilege_return(hart);
        },
    }
}

/// The word that the sequence writes to `mstatus`: drop into supervisor
/// mode, with interrupts enabled once there.
pub open spec fn boot_status() -> u64 {
    (PrivilegeMode::SMV, PreviousInterruptEnable::MPIE).bits()
}

/// The word that `mstatus` holds once the hart has dropped to supervisor
/// mode: interrupts enabled, and nothing else but the previous enable, which
/// every privilege return sets.
pub open spec fn supervisor_status() -> u64 {
    (InterruptEnable::MIE, PreviousInterruptEnable::MPIE).bits()
}

/// The state of a hart at `stage`, where it left reset in state `start` and
/// boots with the entry point `entry` and the delegated causes `exceptions`
/// and `interrupts`.
pub open spec fn staged(
    start: HartView,
    entry: usize,
    exceptions: u64,
    interrupts: u64,
    stage: BootStage,
) -> HartView {
    let id = start.csrs[Csr::Mhartid];
    let status = start.csrs.insert(Csr::Mstatus, boot_status());
    let delegation = status.insert(Csr::Medeleg, exceptions).insert(Csr::Mideleg, interrupts);
    let target = delegation.insert(Csr::Mepc, word_of(entry));
    match stage {
        BootStage::Reset => HartView { stage, ..start },
        BootStage::HartIdentified => HartView { tp: id, stage, ..start },
        BootStage::StatusConfigured => HartView { tp: id, csrs: status, stage, ..start },
        BootStage::DelegationConfigured => HartView { tp: id, csrs: delegation, stage, ..start },
        BootStage::EntryPointSet => HartView { tp: id, csrs: target, stage, ..start },
        BootStage::SupervisorMode => HartView {
            tp: id,
            csrs: target.insert(Csr::Mstatus, supervisor_status()),
            pc: word_of(entry),
            privilege: PrivilegeMode::SMV,
            stage,
            ..start
        },
    }
}

/// The return that ends the sequence goes to supervisor mode and leaves
/// `mstatus` at `supervisor_status`, in which interrupts are enabled.
pub proof fn lemma_boot_status_drops_to_supervisor()
    ensures
        previous_privilege(boot_status()) == Some(PrivilegeMode::SMV),
        status_after_return(boot_status()) == supervisor_status(),
        supervisor_status() & InterruptEnable::MIE.bits() != 0,
{
    assert({
        let status = (0b01u64 << 11) | (1u64 << 7);
        let mask = 0b11u64 << 11;
        &&& status & mask == 0b01u64 << 11
        &&& status & mask != 0b00u64 << 11
        &&& status & mask != mask
        &&& status & (1u64 << 7) != 0
        &&& ((status & !((1u64 << 3) | mask)) & !(1u64 << 17)) | (1u64 << 7) | (1u64 << 3) == (1u64
            << 3) | (1u64 << 7)
        &&& ((1u64 << 3) | (1u64 << 7)) & (1u64 << 3) != 0
    }) by (bit_vector);
}

/// Each stage of `staged` comes from the one before by the action that the
/// plan gives for that stage.
pub proof fn lemma_stage_step<E: MedelegField + Copy, I: MidelegField + Copy>(
    plan: BootPlan<E, I>,
    start: HartView,
    stage: BootStage,
)
    requires
        !(stage is SupervisorMode),
    ensures
        plan.step(stage) is Some,
        staged(
            start,
            plan.entry@,
            plan.exceptions.bits(),
            plan.interrupts.bits(),
            stage.successor(),
        ) == (HartView {
            stage: stage.successor(),
            ..plan.step(stage).unwrap().effect(
                staged(start, plan.entry@, plan.exceptions.bits(), plan.interrupts.bits(), stage),
            )
        }),
{
    let before = staged(start, plan.entry@, plan.exceptions.bits(), plan.interrupts.bits(), stage);
    let after = staged(
        start,
        plan.entry@,
        plan.exceptions.bits(),
        plan.interrupts.bits(),
        stage.successor(),
    );
    let moved = HartView { stage: stage.successor(), ..plan.step(stage).unwrap().effect(before) };
    lemma_boot_status_drops_to_supervisor();
    assert(after.csrs =~= moved.csrs);
    assert(after =~= moved);
}

/// What `boot` gives for a hart in state `hart` and the entry point `entry`.
pub open spec fn boot_result(hart: HartView, entry: usize) -> Result<u64, BootError> {
    if hart.halted {
        Err(BootError::Halted)
    } else if !(hart.stage is Reset) {
        Err(BootError::AlreadyBooted)
    } else if !address_in_window(entry) {
        Err(BootError::InvalidEntryPoint)
    } else {
        Ok(hart.csrs[Csr::Mhartid])
    }
}

/// The state in which `boot` leaves a hart that it found in state `hart`.
pub open spec fn boot_state(
    hart: HartView,
    entry: usize,
    exceptions: u64,
    interrupts: u64,
) -> HartView {
    match boot_result(hart, entry) {
        Ok(_) => staged(hart, entry, exceptions, interrupts, BootStage::SupervisorMode),
        Err(BootError::InvalidEntryPoint) => HartView { halted: true, ..hart },
        Err(_) => hart,
    }
}

/// Boots the simulated hart: identifies it, sets up `mstatus`, delegates
/// `exceptions` and `interrupts` to supervisor mode, sets the entry point
/// and drops to supervisor mode there. Gives the hart's id.
///
/// A hart boots once. One that has left the reset stage, or has been halted,
/// is refused and left as it is. An entry point outside the kernel's physical
/// window halts the hart before any register is written.
pub fn boot<E: MedelegField + Copy, I: MidelegField + Copy>(
    hart: &mut Hart,
    entry: usize,
    exceptions: E,
    interrupts: I,
) -> (r: Result<u64, BootError>)
    ensures
        r == boot_result(old(hart)@, entry),
        final(hart)@ == boot_state(old(hart)@, entry, exceptions.bits(), interrupts.bits()),
{
    if hart.is_halted() {
        return Err(BootError::Halted);
    }
    match hart.stage() {
        BootStage::Reset => {},
        _ => {
            return Err(BootError::AlreadyBooted);
        },
    }
    let valid = match ValidAddress::new(entry) {
        Ok(valid) => valid,
        Err(_) => {
            hart.halt();
            return Err(BootError::InvalidEntryPoint);
        },
    };
    let plan = BootPlan { entry: valid, exceptions, interrupts };
    let id = read_mhartid(hart);
    let ghost start = hart@;
    let mut stage = BootStage::Reset;
    while !stage.is_terminal()
        invariant
            hart@ == staged(
                start,
                plan.entry@,
                plan.exceptions.bits(),
                plan.interrupts.bits(),
                stage,
            ),
        decreases 5 - stage.rank(),
    {
        proof {
            lemma_stage_step(plan, start, stage);
        }
        match plan.action(stage) {
            Some(action) => perform(hart, action),
            None => {},
        }
        stage = stage.next();
        hart.enter(stage);
    }
    Ok(id)
}

/// A hart boots once: whatever a call of `boot` gave, the next call on the
/// same hart is refused and leaves the hart as it found it.
pub proof fn lemma_boot_runs_once(
    hart: HartView,
    entry: usize,
    exceptions: u64,
    interrupts: u64,
    next_entry: usize,
    next_exceptions: u64,
    next_interrupts: u64,
)
    ensures
        ({
            let after = boot_state(hart, entry, exceptions, interrupts);
            &&& boot_result(after, next_entry) is Err
            &&& boot_result(hart, entry) is Ok ==> boot_result(after, next_entry) == Err::<
                u64,
                BootError,
            >(BootError::AlreadyBooted)
            &&& boot_state(after, next_entry, next_exceptions, next_interrupts) == after
        }),
{
}

/// A refused boot writes no register and leaves the hart in the mode and at
/// the address where it was: no hart gets anywhere on a part of the setup.
pub proof fn lemma_refused_boot_configures_nothing(
    hart: HartView,
    entry: usize,
    exceptions: u64,
    interrupts: u64,
)
    requires
        boot_result(hart, entry) is Err,
    ensures
        ({
            let after = boot_state(hart, entry, exceptions, interrupts);
            &&& after.csrs == hart.csrs
            &&& after.tp == hart.tp
            &&& after.pc == hart.pc
            &&& after.privilege == hart.privilege
            &&& after.stage == hart.stage
            &&& after.halted == (hart.halted || boot_result(hart, entry) == Err::<u64, BootError>(
                BootError::InvalidEntryPoint,
            ))
        }),
{
}

} // verus!
