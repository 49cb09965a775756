use riscv_csr::machine::AdditionalStatus;
use riscv_csr::machine::ExtensionStatus;
use riscv_csr::machine::FloatingPointStatus;
use riscv_csr::machine::InterruptEnable;
use riscv_csr::machine::MCounterenField;
use riscv_csr::machine::MCounterenVal;
use riscv_csr::machine::MStatusField;
use riscv_csr::machine::MedelegField;
use riscv_csr::machine::MedelegVal;
use riscv_csr::machine::MenvcfgField;
use riscv_csr::machine::MenvcfgVal;
use riscv_csr::machine::MidelegField;
use riscv_csr::machine::MidelegVal;
use riscv_csr::machine::MieField;
use riscv_csr::machine::MieVal;
use riscv_csr::machine::PreviousInterruptEnable;
use riscv_csr::machine::PrivilegeMode;
use riscv_csr::pmp::PmpcfgField;
use riscv_csr::pmp::PmpcfgVal;
use riscv_csr::satp::SatpField;
use riscv_csr::satp::SatpMode;
use riscv_csr::supervisor::InterruptEnableSStatus;
use riscv_csr::supervisor::PreviousInterruptEnableSStatus;
use riscv_csr::supervisor::PrivilegeModeSStatus;
use riscv_csr::supervisor::SStatusField;
use riscv_csr::supervisor::ScauseField;
use riscv_csr::supervisor::ScauseVal;
use riscv_csr::supervisor::SieField;
use riscv_csr::supervisor::SieVal;
use riscv_csr::supervisor::SipField;
use riscv_csr::supervisor::SipVal;
use riscv_csr::validate::ValidAddress;

/// Wraps a value so that a question about its type can be put to the
/// compiler: a method of `Probe` that is bound by a family's trait is chosen
/// only where the wrapped type belongs to the family. Where it does not, the
/// call falls through to `Outsider`, which every type has.
struct Probe<T>(T);

trait Outsider {
    fn in_mstatus(&self) -> bool {
        false
    }
    fn in_medeleg(&self) -> bool {
        false
    }
    fn in_mideleg(&self) -> bool {
        false
    }
    fn in_mie(&self) -> bool {
        false
    }
    fn in_mcounteren(&self) -> bool {
        false
    }
    fn in_menvcfg(&self) -> bool {
        false
    }
    fn in_sstatus(&self) -> bool {
        false
    }
    fn in_sie(&self) -> bool {
        false
    }
    fn in_scause(&self) -> bool {
        false
    }
    fn in_sip(&self) -> bool {
        false
    }
    fn in_satp(&self) -> bool {
        false
    }
    fn in_pmpcfg(&self) -> bool {
        false
    }
}

impl<T> Outsider for Probe<T> {}

impl<T: MStatusField> Probe<T> {
    fn in_mstatus(&self) -> bool {
        true
    }
}

impl<T: MedelegField> Probe<T> {
    fn in_medeleg(&self) -> bool {
        true
    }
}

impl<T: MidelegField> Probe<T> {
    fn in_mideleg(&self) -> bool {
        true
    }
}

impl<T: MieField> Probe<T> {
    fn in_mie(&self) -> bool {
        true
    }
}

impl<T: MCounterenField> Probe<T> {
    fn in_mcounteren(&self) -> bool {
        true
    }
}

impl<T: MenvcfgField> Probe<T> {
    fn in_menvcfg(&self) -> bool {
        true
    }
}

impl<T: SStatusField> Probe<T> {
    fn in_sstatus(&self) -> bool {
        true
    }
}

impl<T: SieField> Probe<T> {
    fn in_sie(&self) -> bool {
        true
    }
}

impl<T: ScauseField> Probe<T> {
    fn in_scause(&self) -> bool {
        true
    }
}

impl<T: SipField> Probe<T> {
    fn in_sip(&self) -> bool {
        true
    }
}

impl<T: SatpField> Probe<T> {
    fn in_satp(&self) -> bool {
        true
    }
}

impl<T: PmpcfgField> Probe<T> {
    fn in_pmpcfg(&self) -> bool {
        true
    }
}

#[test]
fn privilege_mode_belongs_to_the_mstatus_family_alone() {
    let probe = Probe(PrivilegeMode::MMV);
    assert!(probe.in_mstatus());
    assert!(!probe.in_medeleg());
    assert!(!probe.in_mideleg());
    assert!(!probe.in_mie());
    assert!(!probe.in_mcounteren());
    assert!(!probe.in_menvcfg());
    assert!(!probe.in_sstatus());
    assert!(!probe.in_sie());
    assert!(!probe.in_scause());
    assert!(!probe.in_sip());
    assert!(!probe.in_satp());
    assert!(!probe.in_pmpcfg());
}

#[test]
fn interrupt_enable_belongs_to_the_mstatus_family_alone() {
    let probe = Probe(InterruptEnable::MIE);
    assert!(probe.in_mstatus());
    assert!(!probe.in_medeleg());
    assert!(!probe.in_mideleg());
    assert!(!probe.in_mie());
    assert!(!probe.in_mcounteren());
    assert!(!probe.in_menvcfg());
    assert!(!probe.in_sstatus());
    assert!(!probe.in_sie());
    assert!(!probe.in_scause());
    assert!(!probe.in_sip());
    assert!(!probe.in_satp());
    assert!(!probe.in_pmpcfg());
}

#[test]
fn previous_interrupt_enable_belongs_to_the_mstatus_family_alone() {
    let probe = Probe(PreviousInterruptEnable::MPIE);
    assert!(probe.in_mstatus());
    assert!(!probe.in_medeleg());
    assert!(!probe.in_mideleg());
    assert!(!probe.in_mie());
    assert!(!probe.in_mcounteren());
    assert!(!probe.in_menvcfg());
    assert!(!probe.in_sstatus());
    assert!(!probe.in_sie());
    assert!(!probe.in_scause());
    assert!(!probe.in_sip());
    assert!(!probe.in_satp());
    assert!(!probe.in_pmpcfg());
}

#[test]
fn floating_point_status_belongs_to_the_mstatus_family_alone() {
    let probe = Probe(FloatingPointStatus::DIRTY);
    assert!(probe.in_mstatus());
    assert!(!probe.in_medeleg());
    assert!(!probe.in_mideleg());
    assert!(!probe.in_mie());
    assert!(!probe.in_mcounteren());
    assert!(!probe.in_menvcfg());
    assert!(!probe.in_sstatus());
    assert!(!probe.in_sie());
    assert!(!probe.in_scause());
    assert!(!probe.in_sip());
    assert!(!probe.in_satp());
    assert!(!probe.in_pmpcfg());
}

#[test]
fn extension_status_belongs_to_the_mstatus_family_alone() {
    let probe = Probe(ExtensionStatus::CLEAN);
    assert!(probe.in_mstatus());
    assert!(!probe.in_medeleg());
    assert!(!probe.in_mideleg());
    assert!(!probe.in_mie());
    assert!(!probe.in_mcounteren());
    assert!(!probe.in_menvcfg());
    assert!(!probe.in_sstatus());
    assert!(!probe.in_sie());
    assert!(!probe.in_scause());
    assert!(!probe.in_sip());
    assert!(!probe.in_satp());
    assert!(!probe.in_pmpcfg());
}

#[test]
fn additional_status_belongs_to_the_mstatus_family_alone() {
    let probe = Probe(AdditionalStatus::SUM);
    assert!(probe.in_mstatus());
    assert!(!probe.in_medeleg());
    assert!(!probe.in_mideleg());
    assert!(!probe.in_mie());
    assert!(!probe.in_mcounteren());
    assert!(!probe.in_menvcfg());
    assert!(!probe.in_sstatus());
    assert!(!probe.in_sie());
    assert!(!probe.in_scause());
    assert!(!probe.in_sip());
    assert!(!probe.in_satp());
    assert!(!probe.in_pmpcfg());
}

#[test]
fn medeleg_val_belongs_to_the_medeleg_family_alone() {
    let probe = Probe(MedelegVal::Breakpoint);
    assert!(!probe.in_mstatus());
    assert!(probe.in_medeleg());
    assert!(!probe.in_mideleg());
    assert!(!probe.in_mie());
    assert!(!probe.in_mcounteren());
    assert!(!probe.in_menvcfg());
    assert!(!probe.in_sstatus());
    assert!(!probe.in_sie());
    assert!(!probe.in_scause());
    assert!(!probe.in_sip());
    assert!(!probe.in_satp());
    assert!(!probe.in_pmpcfg());
}

#[test]
fn mideleg_val_belongs_to_the_mideleg_family_alone() {
    let probe = Probe(MidelegVal::STIE);
    assert!(!probe.in_mstatus());
    assert!(!probe.in_medeleg());
    assert!(probe.in_mideleg());
    assert!(!probe.in_mie());
    assert!(!probe.in_mcounteren());
    assert!(!probe.in_menvcfg());
    assert!(!probe.in_sstatus());
    assert!(!probe.in_sie());
    assert!(!probe.in_scause());
    assert!(!probe.in_sip());
    assert!(!probe.in_satp());
    assert!(!probe.in_pmpcfg());
}

#[test]
fn mie_val_belongs_to_the_mie_family_alone() {
    let probe = Probe(MieVal::MTIE);
    assert!(!probe.in_mstatus());
    assert!(!probe.in_medeleg());
    assert!(!probe.in_mideleg());
    assert!(probe.in_mie());
    assert!(!probe.in_mcounteren());
    assert!(!probe.in_menvcfg());
    assert!(!probe.in_sstatus());
    assert!(!probe.in_sie());
    assert!(!probe.in_scause());
    assert!(!probe.in_sip());
    assert!(!probe.in_satp());
    assert!(!probe.in_pmpcfg());
}

#[test]
fn mcounteren_val_belongs_to_the_mcounteren_family_alone() {
    let probe = Probe(MCounterenVal::CY);
    assert!(!probe.in_mstatus());
    assert!(!probe.in_medeleg());
    assert!(!probe.in_mideleg());
    assert!(!probe.in_mie());
    assert!(probe.in_mcounteren());
    assert!(!probe.in_menvcfg());
    assert!(!probe.in_sstatus());
    assert!(!probe.in_sie());
    assert!(!probe.in_scause());
    assert!(!probe.in_sip());
    assert!(!probe.in_satp());
    assert!(!probe.in_pmpcfg());
}

#[test]
fn menvcfg_val_belongs_to_the_menvcfg_family_alone() {
    let probe = Probe(MenvcfgVal::FIOM);
    assert!(!probe.in_mstatus());
    assert!(!probe.in_medeleg());
    assert!(!probe.in_mideleg());
    assert!(!probe.in_mie());
    assert!(!probe.in_mcounteren());
    assert!(probe.in_menvcfg());
    assert!(!probe.in_sstatus());
    assert!(!probe.in_sie());
    assert!(!probe.in_scause());
    assert!(!probe.in_sip());
    assert!(!probe.in_satp());
    assert!(!probe.in_pmpcfg());
}

#[test]
fn privilege_mode_sstatus_belongs_to_the_sstatus_family_alone() {
    let probe = Probe(PrivilegeModeSStatus::SPP);
    assert!(!probe.in_mstatus());
    assert!(!probe.in_medeleg());
    assert!(!probe.in_mideleg());
    assert!(!probe.in_mie());
    assert!(!probe.in_mcounteren());
    assert!(!probe.in_menvcfg());
    assert!(probe.in_sstatus());
    assert!(!probe.in_sie());
    assert!(!probe.in_scause());
    assert!(!probe.in_sip());
    assert!(!probe.in_satp());
    assert!(!probe.in_pmpcfg());
}

#[test]
fn interrupt_enable_sstatus_belongs_to_the_sstatus_family_alone() {
    let probe = Probe(InterruptEnableSStatus::SIE);
    assert!(!probe.in_mstatus());
    assert!(!probe.in_medeleg());
    assert!(!probe.in_mideleg());
    assert!(!probe.in_mie());
    assert!(!probe.in_mcounteren());
    assert!(!probe.in_menvcfg());
    assert!(probe.in_sstatus());
    assert!(!probe.in_sie());
    assert!(!probe.in_scause());
    assert!(!probe.in_sip());
    assert!(!probe.in_satp());
    assert!(!probe.in_pmpcfg());
}

#[test]
fn previous_interrupt_enable_sstatus_belongs_to_the_sstatus_family_alone() {
    let probe = Probe(PreviousInterruptEnableSStatus::SPIE);
    assert!(!probe.in_mstatus());
    assert!(!probe.in_medeleg());
    assert!(!probe.in_mideleg());
    assert!(!probe.in_mie());
    assert!(!probe.in_mcounteren());
    assert!(!probe.in_menvcfg());
    assert!(probe.in_sstatus());
    assert!(!probe.in_sie());
    assert!(!probe.in_scause());
    assert!(!probe.in_sip());
    assert!(!probe.in_satp());
    assert!(!probe.in_pmpcfg());
}

#[test]
fn sie_val_belongs_to_the_sie_family_alone() {
    let probe = Probe(SieVal::SEIE);
    assert!(!probe.in_mstatus());
    assert!(!probe.in_medeleg());
    assert!(!probe.in_mideleg());
    assert!(!probe.in_mie());
    assert!(!probe.in_mcounteren());
    assert!(!probe.in_menvcfg());
    assert!(!probe.in_sstatus());
    assert!(probe.in_sie());
    assert!(!probe.in_scause());
    assert!(!probe.in_sip());
    assert!(!probe.in_satp());
    assert!(!probe.in_pmpcfg());
}

#[test]
fn scause_val_belongs_to_the_scause_family_alone() {
    let probe = Probe(ScauseVal::Breakpoint);
    assert!(!probe.in_mstatus());
    assert!(!probe.in_medeleg());
    assert!(!probe.in_mideleg());
    assert!(!probe.in_mie());
    assert!(!probe.in_mcounteren());
    assert!(!probe.in_menvcfg());
    assert!(!probe.in_sstatus());
    assert!(!probe.in_sie());
    assert!(probe.in_scause());
    assert!(!probe.in_sip());
    assert!(!probe.in_satp());
    assert!(!probe.in_pmpcfg());
}

#[test]
fn sip_val_belongs_to_the_sip_family_alone() {
    let probe = Probe(SipVal::SSIP);
    assert!(!probe.in_mstatus());
    assert!(!probe.in_medeleg());
    assert!(!probe.in_mideleg());
    assert!(!probe.in_mie());
    assert!(!probe.in_mcounteren());
    assert!(!probe.in_menvcfg());
    assert!(!probe.in_sstatus());
    assert!(!probe.in_sie());
    assert!(!probe.in_scause());
    assert!(probe.in_sip());
    assert!(!probe.in_satp());
    assert!(!probe.in_pmpcfg());
}

#[test]
fn satp_mode_belongs_to_the_satp_family_alone() {
    let probe = Probe(SatpMode::Sv39);
    assert!(!probe.in_mstatus());
    assert!(!probe.in_medeleg());
    assert!(!probe.in_mideleg());
    assert!(!probe.in_mie());
    assert!(!probe.in_mcounteren());
    assert!(!probe.in_menvcfg());
    assert!(!probe.in_sstatus());
    assert!(!probe.in_sie());
    assert!(!probe.in_scause());
    assert!(!probe.in_sip());
    assert!(probe.in_satp());
    assert!(!probe.in_pmpcfg());
}

#[test]
fn pmpcfg_val_belongs_to_the_pmpcfg_family_alone() {
    let probe = Probe(PmpcfgVal::R);
    assert!(!probe.in_mstatus());
    assert!(!probe.in_medeleg());
    assert!(!probe.in_mideleg());
    assert!(!probe.in_mie());
    assert!(!probe.in_mcounteren());
    assert!(!probe.in_menvcfg());
    assert!(!probe.in_sstatus());
    assert!(!probe.in_sie());
    assert!(!probe.in_scause());
    assert!(!probe.in_sip());
    assert!(!probe.in_satp());
    assert!(probe.in_pmpcfg());
}

#[test]
fn a_pair_belongs_to_the_family_that_both_parts_share() {
    let probe = Probe((PrivilegeMode::SMV, PreviousInterruptEnable::MPIE));
    assert!(probe.in_mstatus());
    assert!(!probe.in_medeleg());
    assert!(!probe.in_mideleg());
    assert!(!probe.in_mie());
    assert!(!probe.in_mcounteren());
    assert!(!probe.in_menvcfg());
    assert!(!probe.in_sstatus());
    assert!(!probe.in_sie());
    assert!(!probe.in_scause());
    assert!(!probe.in_sip());
    assert!(!probe.in_satp());
    assert!(!probe.in_pmpcfg());
    let probe = Probe((MedelegVal::Breakpoint, (MedelegVal::LoadPageFault, MedelegVal::StorePageFault)));
    assert!(!probe.in_mstatus());
    assert!(probe.in_medeleg());
    assert!(!probe.in_mideleg());
    assert!(!probe.in_mie());
    assert!(!probe.in_mcounteren());
    assert!(!probe.in_menvcfg());
    assert!(!probe.in_sstatus());
    assert!(!probe.in_sie());
    assert!(!probe.in_scause());
    assert!(!probe.in_sip());
    assert!(!probe.in_satp());
    assert!(!probe.in_pmpcfg());
}

#[test]
fn a_pair_across_two_families_belongs_to_none() {
    let probe = Probe((PrivilegeMode::SMV, MedelegVal::Breakpoint));
    assert!(!probe.in_mstatus());
    assert!(!probe.in_medeleg());
    assert!(!probe.in_mideleg());
    assert!(!probe.in_mie());
    assert!(!probe.in_mcounteren());
    assert!(!probe.in_menvcfg());
    assert!(!probe.in_sstatus());
    assert!(!probe.in_sie());
    assert!(!probe.in_scause());
    assert!(!probe.in_sip());
    assert!(!probe.in_satp());
    assert!(!probe.in_pmpcfg());
    let probe = Probe((MieVal::SSIE, SieVal::SSIE));
    assert!(!probe.in_mstatus());
    assert!(!probe.in_medeleg());
    assert!(!probe.in_mideleg());
    assert!(!probe.in_mie());
    assert!(!probe.in_mcounteren());
    assert!(!probe.in_menvcfg());
    assert!(!probe.in_sstatus());
    assert!(!probe.in_sie());
    assert!(!probe.in_scause());
    assert!(!probe.in_sip());
    assert!(!probe.in_satp());
    assert!(!probe.in_pmpcfg());
}

#[test]
fn modes_and_causes_are_not_combined() {
    let probe = Probe((SatpMode::Sv39, SatpMode::Sv48));
    assert!(!probe.in_mstatus());
    assert!(!probe.in_medeleg());
    assert!(!probe.in_mideleg());
    assert!(!probe.in_mie());
    assert!(!probe.in_mcounteren());
    assert!(!probe.in_menvcfg());
    assert!(!probe.in_sstatus());
    assert!(!probe.in_sie());
    assert!(!probe.in_scause());
    assert!(!probe.in_sip());
    assert!(!probe.in_satp());
    assert!(!probe.in_pmpcfg());
    let probe = Probe((ScauseVal::Breakpoint, ScauseVal::LoadPageFault));
    assert!(!probe.in_mstatus());
    assert!(!probe.in_medeleg());
    assert!(!probe.in_mideleg());
    assert!(!probe.in_mie());
    assert!(!probe.in_mcounteren());
    assert!(!probe.in_menvcfg());
    assert!(!probe.in_sstatus());
    assert!(!probe.in_sie());
    assert!(!probe.in_scause());
    assert!(!probe.in_sip());
    assert!(!probe.in_satp());
    assert!(!probe.in_pmpcfg());
}

#[test]
fn plain_words_and_validated_values_belong_to_no_family() {
    let probe = Probe(0x880u64);
    assert!(!probe.in_mstatus());
    assert!(!probe.in_medeleg());
    assert!(!probe.in_mideleg());
    assert!(!probe.in_mie());
    assert!(!probe.in_mcounteren());
    assert!(!probe.in_menvcfg());
    assert!(!probe.in_sstatus());
    assert!(!probe.in_sie());
    assert!(!probe.in_scause());
    assert!(!probe.in_sip());
    assert!(!probe.in_satp());
    assert!(!probe.in_pmpcfg());
    let probe = Probe(ValidAddress::new(0x8000_0000).unwrap());
    assert!(!probe.in_mstatus());
    assert!(!probe.in_medeleg());
    assert!(!probe.in_mideleg());
    assert!(!probe.in_mie());
    assert!(!probe.in_mcounteren());
    assert!(!probe.in_menvcfg());
    assert!(!probe.in_sstatus());
    assert!(!probe.in_sie());
    assert!(!probe.in_scause());
    assert!(!probe.in_sip());
    assert!(!probe.in_satp());
    assert!(!probe.in_pmpcfg());
}
