//! The xAPIC access path: registers in a 4 KiB memory page, read and written
//! 32 bits at a time at the offsets of `Register::xapic_offset`.
use crate::bits::{bits32, get_bits_u32};
use crate::interrupt_command::InterruptCommand;
use vstd::prelude::*;

verus! {

/// The offset of the high half of the interrupt command register in the
/// xAPIC page; x2APIC mode has one 64-bit MSR for both halves.
pub const xAPIC_ICR_HIGH_OFFSET: usize = 0x310;

/// The APIC ID in a value of the xAPIC ID register: bits 24-31.
pub fn id_of(raw: u32) -> (r: u32)
    ensures
        r == bits32(raw, 24, 32),
{
    get_bits_u32(raw, 24, 32)
}

/// The values of the high and low interrupt command registers that send
/// `command` in xAPIC mode: the destination goes to bits 24-31 of the high
/// register, the low half unchanged to the low one. The high register is
/// written first, as writing the low one sends the interrupt. xAPIC
/// destinations have 8 bits, so a wider one gets `None`.
pub fn interrupt_command_registers(command: InterruptCommand) -> (r: Option<(u32, u32)>)
    ensures
        r is Some <==> command.spec_high() <= 0xff,
        r matches Some((high, low)) ==> high == command.spec_high() * 0x100_0000 && low
            == command.spec_low(),
{
    let destination = command.high();
    if destination > 0xff {
        None
    } else {
        assert(destination <= 0xff ==> destination << 24u32 == destination * 0x100_0000)
            by (bit_vector);
        Some((destination << 24u32, command.low()))
    }
}

} // verus!
