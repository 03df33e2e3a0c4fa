//! The APIC's version register and its flag and field registers: error
//! status, timer divide configuration and spurious-interrupt vector.
use crate::bits::{
    bit32, bits32, get_bit_u32, get_bits_u32, lemma_bit32_of_with_bit32, lemma_bits32_fits,
    lemma_bits32_of_with_bits32, lemma_low_mask32_values, set_bit_u32, set_bits_u32, with_bit32,
    with_bits32,
};
use vstd::prelude::*;

verus! {

/// The version register: the APIC's version, the number of its LVT entries,
/// and whether software can suppress end-of-interrupt broadcasts. It is only
/// ever read from the hardware.
#[derive(Debug)]
pub struct Version(u32);

impl View for Version {
    type V = u32;

    closed spec fn view(&self) -> u32 {
        self.0
    }
}

impl Version {
    /// The version register holding `raw`, a value read from the hardware.
    pub fn new(raw: u32) -> (r: Version)
        ensures
            r@ == raw,
    {
        Version(raw)
    }

    /// The version of the APIC (bits 0-7): `0x0_` for a discrete 82489DX,
    /// `0x10` to `0x15` for an integrated APIC.
    pub fn version(&self) -> (r: u8)
        ensures
            r == bits32(self@, 0, 8),
    {
        let v = get_bits_u32(self.0, 0, 8);
        proof {
            lemma_bits32_fits(self.0, 0, 8);
            lemma_low_mask32_values();
        }
        v as u8
    }

    /// Whether software can inhibit the broadcast of end-of-interrupt
    /// messages through bit 12 of the spurious-interrupt vector register
    /// (bit 24).
    pub fn can_suppress_eoi_broadcast(&self) -> (r: bool)
        ensures
            r == bit32(self@, 24),
    {
        get_bit_u32(self.0, 24)
    }

    /// The number of LVT entries less one (bits 16-23): 6 from the Nehalem
    /// microarchitecture on, 5 on Pentium 4 and Xeon, 4 on Pentium Pro to
    /// Pentium III, 3 on Pentium.
    pub fn max_lvt_entry(&self) -> (r: u8)
        ensures
            r == bits32(self@, 16, 24),
    {
        let v = get_bits_u32(self.0, 16, 24);
        proof {
            lemma_bits32_fits(self.0, 16, 24);
            lemma_low_mask32_values();
        }
        v as u8
    }
}

/// The flags of the error-status register: the delivery errors the APIC has
/// detected since the register was last cleared. Clearing is a write to the
/// register; the value read before it stays stale, so read again to see the
/// cleared state.
#[derive(Debug, Clone, Copy, PartialEq, Eq, Structural)]
pub struct ErrorStatus {
    bits: u32,
}

/// The bits of the error-status register that name an error.
pub const ERROR_STATUS_ALL: u32 = 0xff;

impl View for ErrorStatus {
    type V = u32;

    closed spec fn view(&self) -> u32 {
        self.bits
    }
}

impl ErrorStatus {
    pub const SEND_CHECKSUM_ERROR: u32 = 1 << 0;
    pub const RECEIVE_CHECKSUM_ERROR: u32 = 1 << 1;
    pub const SEND_ACCEPT_ERROR: u32 = 1 << 2;
    pub const RECEIVE_ACCEPT_ERROR: u32 = 1 << 3;
    pub const REDIRECTABLE_IPI: u32 = 1 << 4;
    pub const SENT_ILLEGAL_VECTOR: u32 = 1 << 5;
    pub const RECEIVED_ILLEGAL_VECTOR: u32 = 1 << 6;
    pub const ILLEGAL_REGISTER_ADDRESS: u32 = 1 << 7;

    /// The flags set in `raw`; bits that name no error are dropped.
    pub fn from_bits_truncate(raw: u32) -> (r: ErrorStatus)
        ensures
            r@ == raw & ERROR_STATUS_ALL,
    {
        ErrorStatus { bits: raw & ERROR_STATUS_ALL }
    }

    /// The flags as a register value.
    pub fn bits(&self) -> (r: u32)
        ensures
            r == self@,
    {
        self.bits
    }

    /// Whether every flag set in `flags` is set here.
    pub fn contains(&self, flags: u32) -> (r: bool)
        ensures
            r == (self@ & flags == flags),
    {
        self.bits & flags == flags
    }
}

/// The divide configuration of the APIC timer: bits 0, 1 and 3 of the
/// register select the divisor of the bus clock, in a table that is not a
/// simple function of the bits.
#[derive(Debug, Clone, Copy, PartialEq, Eq, Structural)]
pub struct TimerDivideConfiguration {
    bits: u32,
}

/// The bits of the divide configuration register that select the divisor.
pub const TIMER_DIVIDE_ALL: u32 = 0b1011;

impl View for TimerDivideConfiguration {
    type V = u32;

    closed spec fn view(&self) -> u32 {
        self.bits
    }
}

/// The divisor that the divider bits `bits` select.
pub open spec fn divisor_of(bits: u32) -> u32 {
    let b = bits & TIMER_DIVIDE_ALL;
    if b == 0b0000 {
        2
    } else if b == 0b0001 {
        4
    } else if b == 0b0010 {
        8
    } else if b == 0b0011 {
        16
    } else if b == 0b1000 {
        32
    } else if b == 0b1001 {
        64
    } else if b == 0b1010 {
        128
    } else {
        1
    }
}

/// The divider bits that select `divisor`, for the eight divisors there are.
pub open spec fn divide_bits_of(divisor: u32) -> Option<u32> {
    if divisor == 1 {
        Some(0b1011u32)
    } else if divisor == 2 {
        Some(0b0000u32)
    } else if divisor == 4 {
        Some(0b0001u32)
    } else if divisor == 8 {
        Some(0b0010u32)
    } else if divisor == 16 {
        Some(0b0011u32)
    } else if divisor == 32 {
        Some(0b1000u32)
    } else if divisor == 64 {
        Some(0b1001u32)
    } else if divisor == 128 {
        Some(0b1010u32)
    } else {
        None
    }
}

impl TimerDivideConfiguration {
    pub const DIVIDE_1: u32 = 0b1011;
    pub const DIVIDE_2: u32 = 0b0000;
    pub const DIVIDE_4: u32 = 0b0001;
    pub const DIVIDE_8: u32 = 0b0010;
    pub const DIVIDE_16: u32 = 0b0011;
    pub const DIVIDE_32: u32 = 0b1000;
    pub const DIVIDE_64: u32 = 0b1001;
    pub const DIVIDE_128: u32 = 0b1010;

    /// The configuration of the divider bits in `raw`; the other bits are
    /// dropped.
    pub fn from_bits_truncate(raw: u32) -> (r: TimerDivideConfiguration)
        ensures
            r@ == raw & TIMER_DIVIDE_ALL,
    {
        TimerDivideConfiguration { bits: raw & TIMER_DIVIDE_ALL }
    }

    /// The configuration as a register value.
    pub fn bits(&self) -> (r: u32)
        ensures
            r == self@,
    {
        self.bits
    }

    /// The configuration that divides by `divisor`, or `None` where
    /// `divisor` is not one of 1, 2, 4, ..., 128.
    pub fn from_divisor(divisor: u32) -> (r: Option<TimerDivideConfiguration>)
        ensures
            r is Some <==> divide_bits_of(divisor) is Some,
            r matches Some(c) ==> divide_bits_of(divisor) == Some(c@),
    {
        let bits = match divisor {
            1 => TimerDivideConfiguration::DIVIDE_1,
            2 => TimerDivideConfiguration::DIVIDE_2,
            4 => TimerDivideConfiguration::DIVIDE_4,
            8 => TimerDivideConfiguration::DIVIDE_8,
            16 => TimerDivideConfiguration::DIVIDE_16,
            32 => TimerDivideConfiguration::DIVIDE_32,
            64 => TimerDivideConfiguration::DIVIDE_64,
            128 => TimerDivideConfiguration::DIVIDE_128,
            _ => {
                return None;
            },
        };
        Some(TimerDivideConfiguration { bits })
    }

    /// The divisor this configuration selects.
    pub fn divisor(&self) -> (r: u32)
        ensures
            r == divisor_of(self@),
    {
        let b = self.bits & TIMER_DIVIDE_ALL;
        if b == TimerDivideConfiguration::DIVIDE_2 {
            2
        } else if b == TimerDivideConfiguration::DIVIDE_4 {
            4
        } else if b == TimerDivideConfiguration::DIVIDE_8 {
            8
        } else if b == TimerDivideConfiguration::DIVIDE_16 {
            16
        } else if b == TimerDivideConfiguration::DIVIDE_32 {
            32
        } else if b == TimerDivideConfiguration::DIVIDE_64 {
            64
        } else if b == TimerDivideConfiguration::DIVIDE_128 {
            128
        } else {
            1
        }
    }
}

/// The eight patterns are exactly the words without bits outside the
/// divider bits.
proof fn lemma_divide_patterns(bits: u32)
    by (bit_vector)
    ensures
        0b1011u32 & TIMER_DIVIDE_ALL == 0b1011u32,
        0b0000u32 & TIMER_DIVIDE_ALL == 0b0000u32,
        0b0001u32 & TIMER_DIVIDE_ALL == 0b0001u32,
        0b0010u32 & TIMER_DIVIDE_ALL == 0b0010u32,
        0b0011u32 & TIMER_DIVIDE_ALL == 0b0011u32,
        0b1000u32 & TIMER_DIVIDE_ALL == 0b1000u32,
        0b1001u32 & TIMER_DIVIDE_ALL == 0b1001u32,
        0b1010u32 & TIMER_DIVIDE_ALL == 0b1010u32,
        bits & TIMER_DIVIDE_ALL == bits ==> bits == 0 || bits == 1 || bits == 2 || bits == 3
            || bits == 8 || bits == 9 || bits == 10 || bits == 11,
{
}

/// Each of the eight divisors is selected by its own bit pattern, and that
/// pattern selects it back; each pattern of divider bits is the pattern of
/// the divisor it selects.
pub proof fn lemma_timer_divide_round_trip(divisor: u32, bits: u32)
    ensures
        divide_bits_of(divisor) matches Some(b) ==> divisor_of(b) == divisor && b
            & TIMER_DIVIDE_ALL == b,
        bits & TIMER_DIVIDE_ALL == bits ==> divide_bits_of(divisor_of(bits)) == Some(bits),
{
    lemma_divide_patterns(bits);
}

/// The spurious-interrupt vector register: the vector sent for spurious
/// interrupts (bits 0-7), the APIC software-enable bit (8), the focus
/// processor checking bit (9) and EOI-broadcast suppression (12).
#[derive(Debug, Clone, Copy, PartialEq, Eq, Structural)]
pub struct SpuriousInterruptVector {
    bits: u32,
}

impl View for SpuriousInterruptVector {
    type V = u32;

    closed spec fn view(&self) -> u32 {
        self.bits
    }
}

impl SpuriousInterruptVector {
    /// The register holding `raw`, a value read from the hardware.
    pub fn new(raw: u32) -> (r: SpuriousInterruptVector)
        ensures
            r@ == raw,
    {
        SpuriousInterruptVector { bits: raw }
    }

    /// The register value.
    pub fn bits(&self) -> (r: u32)
        ensures
            r == self@,
    {
        self.bits
    }

    /// The vector delivered for a spurious interrupt.
    pub fn get_vector(&self) -> (r: u8)
        ensures
            r == bits32(self@, 0, 8),
    {
        let v = get_bits_u32(self.bits, 0, 8);
        proof {
            lemma_bits32_fits(self.bits, 0, 8);
            lemma_low_mask32_values();
        }
        v as u8
    }

    /// Sets the vector delivered for a spurious interrupt.
    pub fn set_vector(&mut self, vector: u8)
        ensures
            final(self)@ == with_bits32(old(self)@, 0, 8, vector as u32),
            bits32(final(self)@, 0, 8) == vector,
    {
        proof {
            lemma_low_mask32_values();
            lemma_bits32_of_with_bits32(self.bits, 0, 8, vector as u32);
        }
        self.bits = set_bits_u32(self.bits, 0, 8, vector as u32);
    }

    /// Whether the APIC is software-enabled.
    pub fn get_apic_software_enabled(&self) -> (r: bool)
        ensures
            r == bit32(self@, 8),
    {
        get_bit_u32(self.bits, 8)
    }

    /// Enables (`true`) or disables the APIC in software.
    pub fn set_apic_software_enabled(&mut self, value: bool)
        ensures
            final(self)@ == with_bit32(old(self)@, 8, value),
            bit32(final(self)@, 8) == value,
    {
        proof {
            lemma_bit32_of_with_bit32(self.bits, 8, value);
        }
        self.bits = set_bit_u32(self.bits, 8, value);
    }

    /// The focus processor checking bit.
    pub fn get_focus_processor_checking(&self) -> (r: bool)
        ensures
            r == bit32(self@, 9),
    {
        get_bit_u32(self.bits, 9)
    }

    /// Sets the focus processor checking bit.
    pub fn set_focus_processor_checking(&mut self, value: bool)
        ensures
            final(self)@ == with_bit32(old(self)@, 9, value),
            bit32(final(self)@, 9) == value,
    {
        proof {
            lemma_bit32_of_with_bit32(self.bits, 9, value);
        }
        self.bits = set_bit_u32(self.bits, 9, value);
    }

    /// Whether end-of-interrupt broadcasts are suppressed.
    pub fn get_eoi_broadcast_suppression(&self) -> (r: bool)
        ensures
            r == bit32(self@, 12),
    {
        get_bit_u32(self.bits, 12)
    }

    /// Suppresses (`true`) or allows end-of-interrupt broadcasts; only
    /// where `Version::can_suppress_eoi_broadcast` holds.
    pub fn set_eoi_broadcast_suppression(&mut self, value: bool)
        ensures
            final(self)@ == with_bit32(old(self)@, 12, value),
            bit32(final(self)@, 12) == value,
    {
        proof {
            lemma_bit32_of_with_bit32(self.bits, 12, value);
        }
        self.bits = set_bit_u32(self.bits, 12, value);
    }
}

} // verus!
