//! Entries of the local vector table (LVT): one 32-bit register per local
//! interrupt source, typed by the source it configures.
use crate::bits::{
    bit32, bits32, get_bit_u32, get_bits_u32, lemma_bit32_of_with_bit32, lemma_bits32_fits,
    lemma_bits32_of_with_bits32, lemma_low_mask32_values, set_bit_u32, set_bits_u32, with_bit32,
    with_bits32,
};
use crate::interrupt_command::InterruptDeliveryMode;
use core::marker::PhantomData;
use vstd::prelude::*;

verus! {

/// A local interrupt source that has an entry in the local vector table.
pub trait Kind {}

/// A local interrupt source whose entry has a delivery-mode field.
pub trait Deliverable: Kind {}

/// The local APIC timer.
pub struct Timer;

impl Kind for Timer {}

/// The corrected machine-check error interrupt.
pub struct CMCI;

impl Kind for CMCI {}

impl Deliverable for CMCI {}

/// The LINT0 interrupt pin.
pub struct LINT0;

impl Kind for LINT0 {}

/// The LINT1 interrupt pin.
pub struct LINT1;

impl Kind for LINT1 {}

/// The APIC's internal error interrupt.
pub struct Error;

impl Kind for Error {}

/// The performance-monitoring counters.
pub struct PerformanceMonitors;

impl Kind for PerformanceMonitors {}

impl Deliverable for PerformanceMonitors {}

/// The thermal sensor.
pub struct ThermalSensor;

impl Kind for ThermalSensor {}

impl Deliverable for ThermalSensor {}

/// The value of the LVT entry of source `K`: vector in bits 0-7, delivery
/// mode in 8-10 (for `Deliverable` sources), delivery status in 12, mask in
/// 16, and for the timer its mode in 17-18. It is a plain value: changing it
/// changes the hardware only once it is written back to the entry.
#[derive(Debug)]
pub struct LocalVector<K: Kind>(u32, PhantomData<K>);

impl<K: Kind> View for LocalVector<K> {
    type V = u32;

    closed spec fn view(&self) -> u32 {
        self.0
    }
}

impl<K: Kind> LocalVector<K> {
    /// The entry holding `raw`, which must be a value read from the entry of
    /// source `K` in the local vector table.
    pub fn new(raw: u32) -> (r: LocalVector<K>)
        ensures
            r@ == raw,
    {
        LocalVector(raw, PhantomData)
    }

    /// The vector field of the entry.
    pub open spec fn spec_vector(&self) -> u32 {
        bits32(self@, 0, 8)
    }

    /// Whether the mask bit is set.
    pub open spec fn spec_masked(&self) -> bool {
        bit32(self@, 16)
    }

    /// Whether an interrupt from this source has been delivered to the core
    /// and not yet accepted (`false`: no activity, or the last one was
    /// accepted). The hardware alone sets this bit.
    pub fn get_delivery_status(&self) -> (r: bool)
        ensures
            r == bit32(self@, 12),
    {
        get_bit_u32(self.0, 12)
    }

    /// Whether interrupts from this source are masked (ignored on arrival).
    /// The mask is set on reset, and the APIC sets it itself after a
    /// performance-counter interrupt; only software clears it.
    pub fn get_masked(&self) -> (r: bool)
        ensures
            r == self.spec_masked(),
    {
        get_bit_u32(self.0, 16)
    }

    /// Masks (`true`) or unmasks the source.
    pub fn set_masked(&mut self, masked: bool)
        ensures
            final(self)@ == with_bit32(old(self)@, 16, masked),
            final(self).spec_masked() == masked,
    {
        proof {
            lemma_bit32_of_with_bit32(self.0, 16, masked);
        }
        self.0 = set_bit_u32(self.0, 16, masked);
    }

    /// The interrupt vector of the source. Vectors 0-15 are reserved and
    /// never stand in an entry that the hardware handed out.
    pub fn get_vector(&self) -> (r: u8)
        ensures
            r == self.spec_vector(),
    {
        let vector = get_bits_u32(self.0, 0, 8);
        proof {
            lemma_bits32_fits(self.0, 0, 8);
            lemma_low_mask32_values();
        }
        vector as u8
    }

    /// Sets the interrupt vector of the source; vectors 0-15 are reserved.
    pub fn set_vector(&mut self, vector: u8)
        requires
            vector > 15,
        ensures
            final(self)@ == with_bits32(old(self)@, 0, 8, vector as u32),
            final(self).spec_vector() == vector,
    {
        proof {
            lemma_low_mask32_values();
            lemma_bits32_of_with_bits32(self.0, 0, 8, vector as u32);
        }
        self.0 = set_bits_u32(self.0, 0, 8, vector as u32);
    }
}

impl<K: Kind> Clone for LocalVector<K> {
    fn clone(&self) -> (r: LocalVector<K>)
        ensures
            r@ == self@,
    {
        LocalVector(self.0, PhantomData)
    }
}

impl<K: Kind> From<LocalVector<K>> for u32 {
    fn from(value: LocalVector<K>) -> (r: u32) {
        value.0
    }
}

impl<K: Kind> vstd::std_specs::convert::FromSpecImpl<LocalVector<K>> for u32 {
    open spec fn obeys_from_spec() -> bool {
        true
    }

    open spec fn from_spec(v: LocalVector<K>) -> u32 {
        v@
    }
}

impl<K: Kind> From<LocalVector<K>> for u64 {
    fn from(value: LocalVector<K>) -> (r: u64) {
        value.0 as u64
    }
}

impl<K: Kind> vstd::std_specs::convert::FromSpecImpl<LocalVector<K>> for u64 {
    open spec fn obeys_from_spec() -> bool {
        true
    }

    open spec fn from_spec(v: LocalVector<K>) -> u64 {
        v@ as u64
    }
}

impl<K: Deliverable> LocalVector<K> {
    /// Sets the kind of interrupt sent to the core. Some modes work as meant
    /// only with a matching trigger mode.
    pub fn set_delivery_mode(&mut self, mode: InterruptDeliveryMode)
        ensures
            final(self)@ == with_bits32(old(self)@, 8, 11, mode.code()),
            bits32(final(self)@, 8, 11) == mode.code(),
    {
        let code = u32::from(mode);
        proof {
            lemma_low_mask32_values();
            lemma_bits32_of_with_bits32(self.0, 8, 11, code);
        }
        self.0 = set_bits_u32(self.0, 8, 11, code);
    }
}

/// The polarity of an interrupt pin.
#[derive(Debug, Clone, Copy, PartialEq, Eq, Structural)]
pub enum PinPolarity {
    ActiveHigh,
    ActiveLow,
}

/// The modes the APIC timer runs in.
#[derive(Debug, Clone, Copy, PartialEq, Eq, Structural)]
pub enum TimerMode {
    /// Counts down once from the initial count.
    OneShot,
    /// Counts down and reloads the initial count, again and again.
    Periodic,
    /// Fires when the time-stamp counter reaches the value of the
    /// `IA32_TSC_DEADLINE` register; needs processor support.
    TscDeadline,
}

impl TimerMode {
    /// The two-bit code of the mode in the timer entry.
    pub open spec fn code(self) -> u32 {
        match self {
            TimerMode::OneShot => 0b00,
            TimerMode::Periodic => 0b01,
            TimerMode::TscDeadline => 0b10,
        }
    }

    /// The mode whose code is `code`, if any (`0b11` is reserved).
    pub open spec fn from_code(code: u32) -> Option<TimerMode> {
        if code == 0b00 {
            Some(TimerMode::OneShot)
        } else if code == 0b01 {
            Some(TimerMode::Periodic)
        } else if code == 0b10 {
            Some(TimerMode::TscDeadline)
        } else {
            None
        }
    }
}

impl From<TimerMode> for u32 {
    fn from(value: TimerMode) -> (r: u32) {
        match value {
            TimerMode::OneShot => 0b00,
            TimerMode::Periodic => 0b01,
            TimerMode::TscDeadline => 0b10,
        }
    }
}

impl vstd::std_specs::convert::FromSpecImpl<TimerMode> for u32 {
    open spec fn obeys_from_spec() -> bool {
        true
    }

    open spec fn from_spec(v: TimerMode) -> u32 {
        v.code()
    }
}

impl TryFrom<u32> for TimerMode {
    type Error = u32;

    fn try_from(value: u32) -> (r: Result<TimerMode, u32>) {
        match value {
            0b00 => Ok(TimerMode::OneShot),
            0b01 => Ok(TimerMode::Periodic),
            0b10 => Ok(TimerMode::TscDeadline),
            value => Err(value),
        }
    }
}

impl vstd::std_specs::convert::TryFromSpecImpl<u32> for TimerMode {
    open spec fn obeys_try_from_spec() -> bool {
        true
    }

    open spec fn try_from_spec(v: u32) -> Result<TimerMode, u32> {
        match TimerMode::from_code(v) {
            Some(m) => Ok(m),
            None => Err(v),
        }
    }
}

impl LocalVector<Timer> {
    /// The timer mode the entry names, if its mode field is not the reserved
    /// code.
    pub open spec fn spec_mode(&self) -> Option<TimerMode> {
        TimerMode::from_code(bits32(self@, 17, 19))
    }

    /// The mode the timer runs in. An entry read from the hardware never
    /// holds the reserved mode code.
    pub fn get_mode(&self) -> (r: TimerMode)
        requires
            self.spec_mode() is Some,
        ensures
            self.spec_mode() == Some(r),
    {
        let code = get_bits_u32(self.0, 17, 19);
        match TimerMode::try_from(code) {
            Ok(mode) => mode,
            Err(_) => TimerMode::OneShot,
        }
    }

    /// Sets the mode the timer runs in. `tsc_deadline_supported` says
    /// whether the processor has the TSC-deadline timer; without it that mode
    /// may not be chosen.
    pub fn set_mode(&mut self, mode: TimerMode, tsc_deadline_supported: bool)
        requires
            mode == TimerMode::TscDeadline ==> tsc_deadline_supported,
        ensures
            final(self)@ == with_bits32(old(self)@, 17, 19, mode.code()),
            final(self).spec_mode() == Some(mode),
    {
        let code = u32::from(mode);
        proof {
            lemma_low_mask32_values();
            lemma_bits32_of_with_bits32(self.0, 17, 19, code);
        }
        self.0 = set_bits_u32(self.0, 17, 19, code);
    }

    /// Whether writing this entry to the hardware must be followed by a
    /// serializing fence: it must where the entry selects TSC-deadline mode,
    /// as the mode switch is otherwise not ordered before later writes of
    /// the deadline.
    pub fn needs_fence_after_write(&self) -> (r: bool)
        ensures
            r == (self.spec_mode() == Some(TimerMode::TscDeadline)),
    {
        get_bits_u32(self.0, 17, 19) == 0b10
    }
}

/// Whether the processor has the TSC-deadline timer, from the ECX value
/// that `cpuid` leaf 1 returns (bit 24).
pub fn tsc_deadline_supported(cpuid_1_ecx: u32) -> (r: bool)
    ensures
        r == bit32(cpuid_1_ecx, 24),
{
    get_bit_u32(cpuid_1_ecx, 24)
}

} // verus!
