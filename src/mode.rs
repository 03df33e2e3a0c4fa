//! The operations every APIC access mode offers, on the register value types
//! of this crate. One mode reaches the registers through model-specific
//! registers (x2APIC, whose handle is `()`), the other through a mapped
//! memory page (xAPIC, whose handle is the page's address).
use crate::interrupt_command::InterruptCommand;
use crate::local_vector::{
    CMCI, Error, LINT0, LINT1, LocalVector, PerformanceMonitors, ThermalSensor, Timer,
};
use crate::registers::{ErrorStatus, SpuriousInterruptVector, TimerDivideConfiguration, Version};
use vstd::prelude::*;

verus! {

/// An APIC access mode. Each operation reads or writes one register (two
/// for the interrupt command register in xAPIC mode) and completes before it
/// returns. The caller serializes use of the registers of its own core.
pub trait Mode {
    /// What the mode needs to reach the registers.
    type Inner;

    /// The APIC ID of the current processor: 32 bits in x2APIC mode, 8 in
    /// xAPIC mode.
    fn get_id(inner: Self::Inner) -> u32;

    fn get_version(inner: Self::Inner) -> Version;

    /// The errors latched since the last clear.
    fn get_error_status(inner: Self::Inner) -> ErrorStatus;

    /// Clears the latched errors; read the status again to see the result.
    fn clear_error_status(inner: Self::Inner);

    fn get_timer_initial_count(inner: Self::Inner) -> u32;

    fn set_timer_initial_count(inner: Self::Inner, value: u32);

    fn get_timer_current_count(inner: Self::Inner) -> u32;

    fn get_timer_divide_configuration(inner: Self::Inner) -> TimerDivideConfiguration;

    fn set_timer_divide_configuration(inner: Self::Inner, value: TimerDivideConfiguration);

    /// Sends an inter-processor interrupt.
    fn send_interrupt_command(inner: Self::Inner, interrupt_command: InterruptCommand);

    fn get_spurious_vector(inner: Self::Inner) -> SpuriousInterruptVector;

    fn set_spurious_vector(inner: Self::Inner, value: SpuriousInterruptVector);

    fn get_timer_vector(inner: Self::Inner) -> LocalVector<Timer>;

    /// Writes the timer entry, and fences after it where it selects
    /// TSC-deadline mode.
    fn set_timer_vector(inner: Self::Inner, value: LocalVector<Timer>);

    fn get_cmci_vector(inner: Self::Inner) -> LocalVector<CMCI>;

    fn set_cmci_vector(inner: Self::Inner, value: LocalVector<CMCI>);

    fn get_lint0_vector(inner: Self::Inner) -> LocalVector<LINT0>;

    fn set_lint0_vector(inner: Self::Inner, value: LocalVector<LINT0>);

    fn get_lint1_vector(inner: Self::Inner) -> LocalVector<LINT1>;

    fn set_lint1_vector(inner: Self::Inner, value: LocalVector<LINT1>);

    fn get_error_vector(inner: Self::Inner) -> LocalVector<Error>;

    fn set_error_vector(inner: Self::Inner, value: LocalVector<Error>);

    fn get_performance_monitors_vector(inner: Self::Inner) -> LocalVector<PerformanceMonitors>;

    fn set_performance_monitors_vector(inner: Self::Inner, value: LocalVector<PerformanceMonitors>);

    fn get_thermal_sensor_vector(inner: Self::Inner) -> LocalVector<ThermalSensor>;

    fn set_thermal_sensor_vector(inner: Self::Inner, value: LocalVector<ThermalSensor>);

    /// Signals the end of the interrupt being handled. A handler issues it
    /// once per accepted interrupt; until then no interrupt of equal or lower
    /// priority is delivered.
    fn end_of_interrupt(inner: Self::Inner);
}

/// A local APIC reached through mode `M`, chosen once when the APIC is set
/// up and kept for the handle's lifetime.
pub struct xApic<M: Mode>(M::Inner);

impl<M: Mode> xApic<M> {
    /// What the handle reaches the registers through.
    pub closed spec fn spec_inner(&self) -> M::Inner {
        self.0
    }

    /// The APIC reached through `inner`.
    pub fn new(inner: M::Inner) -> (r: xApic<M>)
        ensures
            r.spec_inner() == inner,
    {
        xApic(inner)
    }

    /// What the handle reaches the registers through.
    pub fn inner(&self) -> (r: &M::Inner)
        ensures
            *r == self.spec_inner(),
    {
        &self.0
    }
}

} // verus!
