//! Range-checked values that may be committed to a register.

use vstd::prelude::*;

verus! {

/// First address of the kernel's physical window.
pub const KERNEL_BASE_ADDRESS: usize = 0x80000000;

/// First address past the kernel's physical window, 128 MiB above its base.
pub const PHYSICAL_MEMORY_LIMIT: usize = KERNEL_BASE_ADDRESS + 128 * 1024 * 1024;

/// Largest value accepted for the supervisor timer comparison register.
pub const TIMER_COMPARE_MAX: usize = usize::MAX;

/// Whether `addr` lies in the half-open window
/// `[KERNEL_BASE_ADDRESS, PHYSICAL_MEMORY_LIMIT)`.
pub open spec fn address_in_window(addr: usize) -> bool {
    KERNEL_BASE_ADDRESS <= addr < PHYSICAL_MEMORY_LIMIT
}

/// Whether `val` is an acceptable timer comparison value.
pub open spec fn timer_value_in_range(val: usize) -> bool {
    val <= TIMER_COMPARE_MAX
}

/// The 64-bit machine word that carries `value`.
pub open spec fn word_of(value: usize) -> u64 {
    value as u64
}

/// Widens `value` to a machine word.
pub fn to_word(value: usize) -> (word: u64)
    ensures
        word == word_of(value),
        word == value,
{
    value as u64
}

/// An address known to lie inside the kernel's physical window.
#[derive(Debug, Copy, Clone)]
pub struct ValidAddress(usize);

impl View for ValidAddress {
    type V = usize;

    closed spec fn view(&self) -> usize {
        self.0
    }
}

impl ValidAddress {
    #[verifier::type_invariant]
    spec fn in_window(self) -> bool {
        address_in_window(self.0)
    }

    /// Accepts `addr` exactly when it lies in the kernel's physical window.
    /// What is accepted gives `addr` back from `get`.
    pub fn new(addr: usize) -> (r: Result<Self, &'static str>)
        ensures
            address_in_window(addr) <==> r is Ok,
            r matches Ok(valid) ==> valid.get() == addr,
            r matches Err(msg) ==> msg@ == "Invalid memory address"@,
    {
        if addr >= KERNEL_BASE_ADDRESS && addr < PHYSICAL_MEMORY_LIMIT {
            Ok(ValidAddress(addr))
        } else {
            Err("Invalid memory address")
        }
    }

    /// The wrapped address, as contracts name it.
    pub open spec fn spec_get(self) -> usize {
        self@
    }

    /// The wrapped address, which is always inside the window.
    #[verifier::when_used_as_spec(spec_get)]
    pub fn get(self) -> (addr: usize)
        ensures
            addr == self@,
            address_in_window(addr),
    {
        proof {
            use_type_invariant(&self);
        }
        self.0
    }
}

/// A value that may be written to the supervisor timer comparison register.
#[derive(Debug, Copy, Clone)]
pub struct TimerCompareValue(usize);

impl View for TimerCompareValue {
    type V = usize;

    closed spec fn view(&self) -> usize {
        self.0
    }
}

impl TimerCompareValue {
    #[verifier::type_invariant]
    spec fn in_range(self) -> bool {
        timer_value_in_range(self.0)
    }

    /// Accepts `val` exactly when it is in range. The range is the whole of
    /// `usize`, so every value is accepted. What is accepted gives `val` back
    /// from `get`.
    pub fn new(val: usize) -> (r: Result<Self, &'static str>)
        ensures
            timer_value_in_range(val) <==> r is Ok,
            r matches Ok(valid) && valid.get() == val,
    {
        if val <= TIMER_COMPARE_MAX {
            Ok(TimerCompareValue(val))
        } else {
            Err("Invalid timer compare value")
        }
    }

    /// The wrapped value, as contracts name it.
    pub open spec fn spec_get(self) -> usize {
        self@
    }

    /// The wrapped value.
    #[verifier::when_used_as_spec(spec_get)]
    pub fn get(self) -> (val: usize)
        ensures
            val == self@,
            timer_value_in_range(val),
    {
        self.0
    }
}

} // verus!
