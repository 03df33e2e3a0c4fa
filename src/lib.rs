//! Typed access to the registers of the x86 local APIC: the interrupt command
//! register, the local vector table, and the version, error-status,
//! spurious-vector and timer-divide registers, with the x2APIC register map
//! and the decisions its access paths make.
#![allow(non_camel_case_types, non_upper_case_globals)]

pub mod base;
pub mod bits;
pub mod interrupt_command;
pub mod local_vector;
pub mod mode;
pub mod registers;
pub mod x1;
pub mod x2;

pub use interrupt_command::{
    InterruptAssertMode, InterruptCommand, InterruptDeliveryMode, InterruptDestination,
    InterruptDestinationMode, InterruptTriggerMode,
};
pub use local_vector::{
    CMCI, Deliverable, Error, Kind, LINT0, LINT1, LocalVector, PerformanceMonitors, PinPolarity,
    ThermalSensor, Timer, TimerMode,
};
pub use mode::{Mode, xApic};
pub use registers::{ErrorStatus, SpuriousInterruptVector, TimerDivideConfiguration, Version};
pub use x2::{x2APIC_BASE_MSR_ADDR, xAPIC_BASE_ADDR};
