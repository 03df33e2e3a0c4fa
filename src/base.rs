//! The `IA32_APIC_BASE` model-specific register: whether the APIC is
//! enabled, in which mode, and where its xAPIC register page lies.
use crate::bits::{bit64, bits64, get_bit_u64, get_bits_u64};
use vstd::prelude::*;

verus! {

/// The index of the `IA32_APIC_BASE` MSR.
pub const IA32_APIC_BASE_MSR: u32 = 0x1B;

/// A value of the `IA32_APIC_BASE` register: global enable in bit 11,
/// x2APIC mode in bit 10, and the page frame of the xAPIC registers in
/// bits 12-35.
#[derive(Debug, Clone, Copy, PartialEq, Eq, Structural)]
pub struct ApicBase {
    bits: u64,
}

/// The access mode an enabled APIC is in.
#[derive(Debug, Clone, Copy, PartialEq, Eq, Structural)]
pub enum ActiveMode {
    /// Registers in a memory page at this physical address.
    XApic { base_address: u64 },
    /// Registers in model-specific registers.
    X2Apic,
}

impl View for ApicBase {
    type V = u64;

    closed spec fn view(&self) -> u64 {
        self.bits
    }
}

impl ApicBase {
    /// The physical address of the xAPIC register page named by `bits`.
    pub open spec fn spec_base_address(bits: u64) -> int {
        bits64(bits, 12, 36) * 0x1000
    }

    /// The access mode named by `bits`: none when the APIC is disabled,
    /// x2APIC when the x2APIC bit is set, else xAPIC at the base address.
    pub open spec fn spec_active_mode(bits: u64) -> Option<ActiveMode> {
        if !bit64(bits, 11) {
            None
        } else if bit64(bits, 10) {
            Some(ActiveMode::X2Apic)
        } else {
            Some(ActiveMode::XApic { base_address: ApicBase::spec_base_address(bits) as u64 })
        }
    }

    /// The register value `raw`, as read from the MSR.
    pub fn new(raw: u64) -> (r: ApicBase)
        ensures
            r@ == raw,
    {
        ApicBase { bits: raw }
    }

    /// The register value.
    pub fn bits(&self) -> (r: u64)
        ensures
            r == self@,
    {
        self.bits
    }

    /// Whether the APIC is enabled in hardware (bit 11).
    pub fn is_enabled(&self) -> (r: bool)
        ensures
            r == bit64(self@, 11),
    {
        get_bit_u64(self.bits, 11)
    }

    /// Whether the APIC is in x2APIC mode (bit 10).
    pub fn is_x2_mode(&self) -> (r: bool)
        ensures
            r == bit64(self@, 10),
    {
        get_bit_u64(self.bits, 10)
    }

    /// The physical address of the xAPIC register page (bits 12-35).
    pub fn base_address(&self) -> (r: u64)
        ensures
            r == ApicBase::spec_base_address(self@),
    {
        let bits = self.bits;
        let frame = get_bits_u64(bits, 12, 36);
        assert(bits64(bits, 12, 36) < 0x100_0000) by (bit_vector);
        frame * 0x1000
    }

    /// The access mode the APIC is in, or `None` when it is disabled.
    pub fn active_mode(&self) -> (r: Option<ActiveMode>)
        ensures
            r == ApicBase::spec_active_mode(self@),
    {
        if !self.is_enabled() {
            None
        } else if self.is_x2_mode() {
            Some(ActiveMode::X2Apic)
        } else {
            Some(ActiveMode::XApic { base_address: self.base_address() })
        }
    }
}

} // verus!
