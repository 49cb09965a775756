//! Register identifiers and the storage behind them.

use vstd::prelude::*;

verus! {

/// Machine hardware thread id.
pub const MHARTID: usize = 0xf14;

/// Machine status.
pub const MSTATUS: usize = 0x300;

/// Machine exception delegation.
pub const MEDELEG: usize = 0x302;

/// Machine interrupt delegation.
pub const MIDELEG: usize = 0x303;

/// Machine interrupt enable.
pub const MIE: usize = 0x304;

/// Machine counter enable.
pub const MCOUNTEREN: usize = 0x306;

/// Machine environment configuration.
pub const MENVCFG: usize = 0x30A;

/// Machine exception program counter.
pub const MEPC: usize = 0x341;

/// Machine cycle counter.
pub const MCYCLE: usize = 0xB00;

/// Supervisor status.
pub const SSTATUS: usize = 0x100;

/// Supervisor interrupt enable.
pub const SIE: usize = 0x104;

/// Supervisor trap vector base address.
pub const STVEC: usize = 0x105;

/// Supervisor exception program counter.
pub const SEPC: usize = 0x141;

/// Supervisor trap cause.
pub const SCAUSE: usize = 0x142;

/// Supervisor trap value.
pub const STVAL: usize = 0x143;

/// Supervisor interrupt pending.
pub const SIP: usize = 0x144;

/// Supervisor address translation and protection.
pub const SATP: usize = 0x180;

/// Supervisor timer comparison.
pub const STIMECMP: usize = 0x14d;

/// Physical memory protection configuration, regions 0 to 3.
pub const PMPCFG0: usize = 0x3A0;

/// Physical memory protection address, region 0.
pub const PMPADDR0: usize = 0x3B0;

/// The control and status registers this crate knows. A register can only be
/// named through this type, so no access can carry a number that names none.
#[derive(Clone, Copy, Debug, PartialEq, Eq)]
pub enum Csr {
    Mhartid,
    Mstatus,
    Medeleg,
    Mideleg,
    Mie,
    Mcounteren,
    Menvcfg,
    Mepc,
    Mcycle,
    Sstatus,
    Sie,
    Stvec,
    Sepc,
    Scause,
    Stval,
    Sip,
    Satp,
    Stimecmp,
    Pmpcfg0,
    Pmpaddr0,
}

impl Csr {
    /// The number that the architecture gives this register.
    pub open spec fn number(self) -> usize {
        match self {
            Csr::Mhartid => MHARTID,
            Csr::Mstatus => MSTATUS,
            Csr::Medeleg => MEDELEG,
            Csr::Mideleg => MIDELEG,
            Csr::Mie => MIE,
            Csr::Mcounteren => MCOUNTEREN,
            Csr::Menvcfg => MENVCFG,
            Csr::Mepc => MEPC,
            Csr::Mcycle => MCYCLE,
            Csr::Sstatus => SSTATUS,
            Csr::Sie => SIE,
            Csr::Stvec => STVEC,
            Csr::Sepc => SEPC,
            Csr::Scause => SCAUSE,
            Csr::Stval => STVAL,
            Csr::Sip => SIP,
            Csr::Satp => SATP,
            Csr::Stimecmp => STIMECMP,
            Csr::Pmpcfg0 => PMPCFG0,
            Csr::Pmpaddr0 => PMPADDR0,
        }
    }

    /// The number that the architecture gives this register.
    pub fn address(self) -> (n: usize)
        ensures
            n == self.number(),
    {
        match self {
            Csr::Mhartid => MHARTID,
            Csr::Mstatus => MSTATUS,
            Csr::Medeleg => MEDELEG,
            Csr::Mideleg => MIDELEG,
            Csr::Mie => MIE,
            Csr::Mcounteren => MCOUNTEREN,
            Csr::Menvcfg => MENVCFG,
            Csr::Mepc => MEPC,
            Csr::Mcycle => MCYCLE,
            Csr::Sstatus => SSTATUS,
            Csr::Sie => SIE,
            Csr::Stvec => STVEC,
            Csr::Sepc => SEPC,
            Csr::Scause => SCAUSE,
            Csr::Stval => STVAL,
            Csr::Sip => SIP,
            Csr::Satp => SATP,
            Csr::Stimecmp => STIMECMP,
            Csr::Pmpcfg0 => PMPCFG0,
            Csr::Pmpaddr0 => PMPADDR0,
        }
    }

    /// No two registers share a number.
    pub proof fn lemma_numbers_distinct(a: Csr, b: Csr)
        ensures
            a.number() == b.number() <==> a == b,
    {
    }
}

/// One word of storage for each register, read and written without any
/// check on the word. A `Hart` keeps its register file to itself and lets
/// words in only through the typed writers.
#[derive(Debug)]
pub struct RegisterFile {
    mhartid: u64,
    mstatus: u64,
    medeleg: u64,
    mideleg: u64,
    mie: u64,
    mcounteren: u64,
    menvcfg: u64,
    mepc: u64,
    mcycle: u64,
    sstatus: u64,
    sie: u64,
    stvec: u64,
    sepc: u64,
    scause: u64,
    stval: u64,
    sip: u64,
    satp: u64,
    stimecmp: u64,
    pmpcfg0: u64,
    pmpaddr0: u64,
}

impl View for RegisterFile {
    type V = Map<Csr, u64>;

    /// Every register mapped to the word it holds.
    closed spec fn view(&self) -> Map<Csr, u64> {
        Map::total(|id: Csr| self.word(id))
    }
}

impl RegisterFile {
    spec fn word(self, id: Csr) -> u64 {
        match id {
            Csr::Mhartid => self.mhartid,
            Csr::Mstatus => self.mstatus,
            Csr::Medeleg => self.medeleg,
            Csr::Mideleg => self.mideleg,
            Csr::Mie => self.mie,
            Csr::Mcounteren => self.mcounteren,
            Csr::Menvcfg => self.menvcfg,
            Csr::Mepc => self.mepc,
            Csr::Mcycle => self.mcycle,
            Csr::Sstatus => self.sstatus,
            Csr::Sie => self.sie,
            Csr::Stvec => self.stvec,
            Csr::Sepc => self.sepc,
            Csr::Scause => self.scause,
            Csr::Stval => self.stval,
            Csr::Sip => self.sip,
            Csr::Satp => self.satp,
            Csr::Stimecmp => self.stimecmp,
            Csr::Pmpcfg0 => self.pmpcfg0,
            Csr::Pmpaddr0 => self.pmpaddr0,
        }
    }

    /// The register state of a hart that has just left reset: every register
    /// holds zero, except that `mhartid` holds `hartid`.
    pub open spec fn reset(hartid: u64) -> Map<Csr, u64> {
        Map::total(|id: Csr| if id == Csr::Mhartid { hartid } else { 0u64 })
    }

    /// A register file in its reset state.
    pub fn new(hartid: u64) -> (regs: Self)
        ensures
            regs@ == Self::reset(hartid),
    {
        let regs = RegisterFile {
            mhartid: hartid,
            mstatus: 0,
            medeleg: 0,
            mideleg: 0,
            mie: 0,
            mcounteren: 0,
            menvcfg: 0,
            mepc: 0,
            mcycle: 0,
            sstatus: 0,
            sie: 0,
            stvec: 0,
            sepc: 0,
            scause: 0,
            stval: 0,
            sip: 0,
            satp: 0,
            stimecmp: 0,
            pmpcfg0: 0,
            pmpaddr0: 0,
        };
        assert(regs@ =~= Self::reset(hartid));
        regs
    }

    /// The word that register `id` holds.
    pub fn read(&self, id: Csr) -> (word: u64)
        ensures
            self@.dom().contains(id),
            word == self@[id],
    {
        match id {
            Csr::Mhartid => self.mhartid,
            Csr::Mstatus => self.mstatus,
            Csr::Medeleg => self.medeleg,
            Csr::Mideleg => self.mideleg,
            Csr::Mie => self.mie,
            Csr::Mcounteren => self.mcounteren,
            Csr::Menvcfg => self.menvcfg,
            Csr::Mepc => self.mepc,
            Csr::Mcycle => self.mcycle,
            Csr::Sstatus => self.sstatus,
            Csr::Sie => self.sie,
            Csr::Stvec => self.stvec,
            Csr::Sepc => self.sepc,
            Csr::Scause => self.scause,
            Csr::Stval => self.stval,
            Csr::Sip => self.sip,
            Csr::Satp => self.satp,
            Csr::Stimecmp => self.stimecmp,
            Csr::Pmpcfg0 => self.pmpcfg0,
            Csr::Pmpaddr0 => self.pmpaddr0,
        }
    }

    /// Replaces the whole word of register `id` and touches no other register.
    pub fn write(&mut self, id: Csr, word: u64)
        ensures
            final(self)@ == old(self)@.insert(id, word),
        no_unwind
    {
        match id {
            Csr::Mhartid => self.mhartid = word,
            Csr::Mstatus => self.mstatus = word,
            Csr::Medeleg => self.medeleg = word,
            Csr::Mideleg => self.mideleg = word,
            Csr::Mie => self.mie = word,
            Csr::Mcounteren => self.mcounteren = word,
            Csr::Menvcfg => self.menvcfg = word,
            Csr::Mepc => self.mepc = word,
            Csr::Mcycle => self.mcycle = word,
            Csr::Sstatus => self.sstatus = word,
            Csr::Sie => self.sie = word,
            Csr::Stvec => self.stvec = word,
            Csr::Sepc => self.sepc = word,
            Csr::Scause => self.scause = word,
            Csr::Stval => self.stval = word,
            Csr::Sip => self.sip = word,
            Csr::Satp => self.satp = word,
            Csr::Stimecmp => self.stimecmp = word,
            Csr::Pmpcfg0 => self.pmpcfg0 = word,
            Csr::Pmpaddr0 => self.pmpaddr0 = word,
        }
        assert(self@ =~= old(self)@.insert(id, word));
    }

    /// Every register file holds a word for every register.
    pub proof fn lemma_total(self)
        ensures
            self@.dom() == Set::<Csr>::full(),
    {
        assert(self@.dom() =~= Set::<Csr>::full());
    }
}

} // verus!
