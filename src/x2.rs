//! The x2APIC access path: the model-specific register (MSR) of each APIC
//! register (beside its xAPIC offset), the 64-bit MSR values its operations
//! exchange, and the check on the interrupt commands it sends.
use crate::interrupt_command::InterruptCommand;
use vstd::prelude::*;

verus! {

/// The first MSR of the x2APIC register block.
pub const x2APIC_BASE_MSR_ADDR: u32 = 0x800;

/// The physical address at which the xAPIC register page sits after reset.
pub const xAPIC_BASE_ADDR: usize = 0xFEE0_0000;

/// The registers of the local APIC that this crate reads or writes.
#[derive(Debug, Clone, Copy, PartialEq, Eq, Structural)]
pub enum Register {
    Id,
    Version,
    TaskPriority,
    ProcessorPriority,
    EndOfInterrupt,
    LocalDestination,
    SpuriousVector,
    ErrorStatus,
    CmciVector,
    InterruptCommand,
    TimerVector,
    ThermalSensorVector,
    PerformanceMonitorsVector,
    Lint0Vector,
    Lint1Vector,
    ErrorVector,
    TimerInitialCount,
    TimerCurrentCount,
    TimerDivideConfiguration,
}

impl Register {
    /// The MSR index of the register in x2APIC mode.
    pub open spec fn spec_msr(self) -> u32 {
        match self {
            Register::Id => 0x802,
            Register::Version => 0x803,
            Register::TaskPriority => 0x808,
            Register::ProcessorPriority => 0x80A,
            Register::EndOfInterrupt => 0x80B,
            Register::LocalDestination => 0x80D,
            Register::SpuriousVector => 0x80F,
            Register::ErrorStatus => 0x828,
            Register::CmciVector => 0x82F,
            Register::InterruptCommand => 0x830,
            Register::TimerVector => 0x832,
            Register::ThermalSensorVector => 0x833,
            Register::PerformanceMonitorsVector => 0x834,
            Register::Lint0Vector => 0x835,
            Register::Lint1Vector => 0x836,
            Register::ErrorVector => 0x837,
            Register::TimerInitialCount => 0x838,
            Register::TimerCurrentCount => 0x839,
            Register::TimerDivideConfiguration => 0x83E,
        }
    }

    /// The byte offset of the register in the xAPIC register page (for the
    /// interrupt command register, of its low half).
    pub open spec fn spec_offset(self) -> usize {
        match self {
            Register::Id => 0x20,
            Register::Version => 0x30,
            Register::TaskPriority => 0x80,
            Register::ProcessorPriority => 0xA0,
            Register::EndOfInterrupt => 0xB0,
            Register::LocalDestination => 0xD0,
            Register::SpuriousVector => 0xF0,
            Register::ErrorStatus => 0x280,
            Register::CmciVector => 0x2F0,
            Register::InterruptCommand => 0x300,
            Register::TimerVector => 0x320,
            Register::ThermalSensorVector => 0x330,
            Register::PerformanceMonitorsVector => 0x340,
            Register::Lint0Vector => 0x350,
            Register::Lint1Vector => 0x360,
            Register::ErrorVector => 0x370,
            Register::TimerInitialCount => 0x380,
            Register::TimerCurrentCount => 0x390,
            Register::TimerDivideConfiguration => 0x3E0,
        }
    }

    /// The MSR index of the register in x2APIC mode.
    pub fn msr(self) -> (r: u32)
        ensures
            r == self.spec_msr(),
    {
        match self {
            Register::Id => 0x802,
            Register::Version => 0x803,
            Register::TaskPriority => 0x808,
            Register::ProcessorPriority => 0x80A,
            Register::EndOfInterrupt => 0x80B,
            Register::LocalDestination => 0x80D,
            Register::SpuriousVector => 0x80F,
            Register::ErrorStatus => 0x828,
            Register::CmciVector => 0x82F,
            Register::InterruptCommand => 0x830,
            Register::TimerVector => 0x832,
            Register::ThermalSensorVector => 0x833,
            Register::PerformanceMonitorsVector => 0x834,
            Register::Lint0Vector => 0x835,
            Register::Lint1Vector => 0x836,
            Register::ErrorVector => 0x837,
            Register::TimerInitialCount => 0x838,
            Register::TimerCurrentCount => 0x839,
            Register::TimerDivideConfiguration => 0x83E,
        }
    }

    /// The byte offset of the register in the xAPIC register page.
    pub fn xapic_offset(self) -> (r: usize)
        ensures
            r == self.spec_offset(),
    {
        match self {
            Register::Id => 0x20,
            Register::Version => 0x30,
            Register::TaskPriority => 0x80,
            Register::ProcessorPriority => 0xA0,
            Register::EndOfInterrupt => 0xB0,
            Register::LocalDestination => 0xD0,
            Register::SpuriousVector => 0xF0,
            Register::ErrorStatus => 0x280,
            Register::CmciVector => 0x2F0,
            Register::InterruptCommand => 0x300,
            Register::TimerVector => 0x320,
            Register::ThermalSensorVector => 0x330,
            Register::PerformanceMonitorsVector => 0x340,
            Register::Lint0Vector => 0x350,
            Register::Lint1Vector => 0x360,
            Register::ErrorVector => 0x370,
            Register::TimerInitialCount => 0x380,
            Register::TimerCurrentCount => 0x390,
            Register::TimerDivideConfiguration => 0x3E0,
        }
    }
}

/// The two register maps agree: each x2APIC MSR index is the base MSR plus
/// the xAPIC byte offset divided by 16, and each offset is 16-byte aligned.
pub proof fn lemma_msr_matches_offset(register: Register)
    ensures
        register.spec_msr() == x2APIC_BASE_MSR_ADDR + register.spec_offset() / 16,
        register.spec_offset() % 16 == 0,
{
}

/// The 64-bit MSR value whose low half is `low` and high half `high`, as
/// `rdmsr` returns it in EAX and EDX.
pub open spec fn msr_value_of(low: u32, high: u32) -> int {
    high * 0x1_0000_0000 + low
}

/// Joins the halves of an MSR value.
pub fn msr_value(low: u32, high: u32) -> (r: u64)
    ensures
        r == msr_value_of(low, high),
{
    let r = ((high as u64) << 32u64) | (low as u64);
    assert(((high as u64) << 32u64) | (low as u64) == high * 0x1_0000_0000 + low) by (bit_vector);
    r
}

/// Splits an MSR value into the halves that `wrmsr` takes in EAX and EDX.
pub fn msr_halves(value: u64) -> (r: (u32, u32))
    ensures
        msr_value_of(r.0, r.1) == value,
{
    let low = (value & 0xffff_ffff) as u32;
    let high = (value >> 32u64) as u32;
    assert(((value >> 32u64) as u32) * 0x1_0000_0000 + ((value & 0xffff_ffff) as u32) == value)
        by (bit_vector);
    (low, high)
}

/// The value of the interrupt command MSR that sends `command`: the high
/// half above the low half. x2APIC mode has no lowest-priority delivery, so
/// a command whose delivery-mode field is `0b001` gets `None` and must not
/// be sent.
pub fn interrupt_command_value(command: InterruptCommand) -> (r: Option<u64>)
    ensures
        r is None <==> command.spec_delivery_code() == 0b001,
        r matches Some(v) ==> v == msr_value_of(command.spec_low(), command.spec_high()),
{
    match command.delivery_mode() {
        Some(crate::interrupt_command::InterruptDeliveryMode::LowPriority) => None,
        _ => Some(msr_value(command.low(), command.high())),
    }
}

} // verus!
