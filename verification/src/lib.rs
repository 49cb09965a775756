//! Typed access to the RISC-V control and status registers of one hart, and
//! the boot-time drop from machine mode to supervisor mode, checked against
//! a software model of the hart.
//!
//! - [`validate`]: addresses and timer values, range-checked before they may
//!   reach a register.
//! - [`csr`]: the registers' names and numbers, and bare storage for their
//!   words.
//! - [`hart`]: the simulated hart. Its registers change only through the
//!   writers below.
//! - [`machine`], [`supervisor`], [`satp`], [`pmp`]: for each register a
//!   reader, and a writer that takes only the values made for that register
//!   and replaces the whole register by them.
//! - [`boot`]: the one-shot sequence that identifies the hart, sets up status
//!   and delegation, and hands over to supervisor mode.
//!
//! Register words are 64 bits wide. Contracts speak of a hart through its
//! view, [`hart::HartView`].

pub mod boot;
pub mod csr;
pub mod hart;
pub mod machine;
pub mod pmp;
pub mod satp;
mod sealed;
pub mod supervisor;
pub mod validate;
