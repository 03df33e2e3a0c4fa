//! The interrupt command register (ICR): the 64-bit value through which one
//! processor sends an inter-processor interrupt to others.
use crate::bits::{
    lemma_bits32_fits, lemma_low_mask32_values, bit32, bits32, get_bit_u32, get_bits_u32, set_bit_u32, set_bits_u32, with_bit32, with_bits32,
};
use vstd::prelude::*;

verus! {

/// How an interrupt is delivered to its destination.
#[derive(Debug, Clone, Copy, PartialEq, Eq, Structural)]
pub enum InterruptDeliveryMode {
    /// The interrupt named by the vector field.
    Fixed,
    /// As `Fixed`, to the destination processor running at the lowest
    /// priority. Inter-processor interrupts only; refused in x2APIC mode.
    LowPriority,
    /// A system management interrupt; carries no vector.
    SystemManagement,
    /// A non-maskable interrupt; the vector is ignored.
    NonMaskable,
    /// An INIT request; carries no vector.
    Init,
    /// A start-up interrupt (SIPI); the vector names the start-up page.
    StartUp,
    /// As if raised by an external 8259A-compatible controller.
    External,
}

impl InterruptDeliveryMode {
    /// The three-bit code of the mode in a delivery-mode field.
    pub open spec fn code(self) -> u32 {
        match self {
            InterruptDeliveryMode::Fixed => 0b000,
            InterruptDeliveryMode::LowPriority => 0b001,
            InterruptDeliveryMode::SystemManagement => 0b010,
            InterruptDeliveryMode::NonMaskable => 0b100,
            InterruptDeliveryMode::Init => 0b101,
            InterruptDeliveryMode::StartUp => 0b110,
            InterruptDeliveryMode::External => 0b111,
        }
    }

    /// The mode whose code is `code`, if any (`0b011` is reserved).
    pub open spec fn from_code(code: u32) -> Option<InterruptDeliveryMode> {
        if code == 0b000 {
            Some(InterruptDeliveryMode::Fixed)
        } else if code == 0b001 {
            Some(InterruptDeliveryMode::LowPriority)
        } else if code == 0b010 {
            Some(InterruptDeliveryMode::SystemManagement)
        } else if code == 0b100 {
            Some(InterruptDeliveryMode::NonMaskable)
        } else if code == 0b101 {
            Some(InterruptDeliveryMode::Init)
        } else if code == 0b110 {
            Some(InterruptDeliveryMode::StartUp)
        } else if code == 0b111 {
            Some(InterruptDeliveryMode::External)
        } else {
            None
        }
    }

    /// Decodes a delivery-mode field.
    pub fn from_bits(code: u32) -> (r: Option<InterruptDeliveryMode>)
        ensures
            r == InterruptDeliveryMode::from_code(code),
    {
        match code {
            0b000 => Some(InterruptDeliveryMode::Fixed),
            0b001 => Some(InterruptDeliveryMode::LowPriority),
            0b010 => Some(InterruptDeliveryMode::SystemManagement),
            0b100 => Some(InterruptDeliveryMode::NonMaskable),
            0b101 => Some(InterruptDeliveryMode::Init),
            0b110 => Some(InterruptDeliveryMode::StartUp),
            0b111 => Some(InterruptDeliveryMode::External),
            _ => None,
        }
    }
}

impl From<InterruptDeliveryMode> for u32 {
    fn from(value: InterruptDeliveryMode) -> (r: u32) {
        match value {
            InterruptDeliveryMode::Fixed => 0b000,
            InterruptDeliveryMode::LowPriority => 0b001,
            InterruptDeliveryMode::SystemManagement => 0b010,
            InterruptDeliveryMode::NonMaskable => 0b100,
            InterruptDeliveryMode::Init => 0b101,
            InterruptDeliveryMode::StartUp => 0b110,
            InterruptDeliveryMode::External => 0b111,
        }
    }
}

impl vstd::std_specs::convert::FromSpecImpl<InterruptDeliveryMode> for u32 {
    open spec fn obeys_from_spec() -> bool {
        true
    }

    open spec fn from_spec(v: InterruptDeliveryMode) -> u32 {
        v.code()
    }
}

/// How the destination field of a command names its processors.
#[derive(Debug, Clone, Copy, PartialEq, Eq, Structural)]
pub enum InterruptDestinationMode {
    /// The destination is a local APIC ID.
    Physical,
    /// The destination is a message destination address, matched against
    /// each APIC's logical destination register.
    Logical,
}

impl InterruptDestinationMode {
    /// The value of the destination-mode bit.
    pub open spec fn bit(self) -> bool {
        self == InterruptDestinationMode::Logical
    }
}

impl From<InterruptDestinationMode> for bool {
    fn from(value: InterruptDestinationMode) -> (r: bool) {
        match value {
            InterruptDestinationMode::Physical => false,
            InterruptDestinationMode::Logical => true,
        }
    }
}

impl vstd::std_specs::convert::FromSpecImpl<InterruptDestinationMode> for bool {
    open spec fn obeys_from_spec() -> bool {
        true
    }

    open spec fn from_spec(v: InterruptDestinationMode) -> bool {
        v.bit()
    }
}

/// Whether an interrupt is edge- or level-triggered.
#[derive(Debug, Clone, Copy, PartialEq, Eq, Structural)]
pub enum InterruptTriggerMode {
    Edge,
    Level,
}

impl InterruptTriggerMode {
    /// The value of the trigger-mode bit.
    pub open spec fn bit(self) -> bool {
        self == InterruptTriggerMode::Level
    }
}

impl From<InterruptTriggerMode> for bool {
    fn from(value: InterruptTriggerMode) -> (r: bool) {
        match value {
            InterruptTriggerMode::Edge => false,
            InterruptTriggerMode::Level => true,
        }
    }
}

impl vstd::std_specs::convert::FromSpecImpl<InterruptTriggerMode> for bool {
    open spec fn obeys_from_spec() -> bool {
        true
    }

    open spec fn from_spec(v: InterruptTriggerMode) -> bool {
        v.bit()
    }
}

/// The level flag of a command: de-assert is meaningful only for the INIT
/// level de-assert message; every other command asserts.
#[derive(Debug, Clone, Copy, PartialEq, Eq, Structural)]
pub enum InterruptAssertMode {
    Deassert,
    Assert,
}

impl InterruptAssertMode {
    /// The value of the level bit.
    pub open spec fn bit(self) -> bool {
        self == InterruptAssertMode::Assert
    }
}

impl From<InterruptAssertMode> for bool {
    fn from(value: InterruptAssertMode) -> (r: bool) {
        match value {
            InterruptAssertMode::Deassert => false,
            InterruptAssertMode::Assert => true,
        }
    }
}

impl vstd::std_specs::convert::FromSpecImpl<InterruptAssertMode> for bool {
    open spec fn obeys_from_spec() -> bool {
        true
    }

    open spec fn from_spec(v: InterruptAssertMode) -> bool {
        v.bit()
    }
}

/// The processors a command goes to: one named by its ID, or one of the
/// three shorthands, which need no destination field.
#[derive(Debug, Clone, Copy, PartialEq, Eq, Structural)]
pub enum InterruptDestination {
    /// The processor with this APIC ID (or logical address).
    Processor { id: u32 },
    /// The sending processor alone.
    OnlySelf,
    /// Every processor, the sender included.
    AllIncludingSelf,
    /// Every processor but the sender.
    AllExcludingSelf,
}

impl InterruptDestination {
    /// The two-bit destination-shorthand code.
    pub open spec fn shorthand(self) -> u32 {
        match self {
            InterruptDestination::Processor { .. } => 0b00,
            InterruptDestination::OnlySelf => 0b01,
            InterruptDestination::AllIncludingSelf => 0b10,
            InterruptDestination::AllExcludingSelf => 0b11,
        }
    }

    /// The destination field: the ID for an explicit processor, else zero.
    pub open spec fn field(self) -> u32 {
        match self {
            InterruptDestination::Processor { id } => id,
            _ => 0,
        }
    }
}

/// The vector field of a command: the vector if there is one, else zero.
pub open spec fn vector_field(vector: Option<u8>) -> u32 {
    match vector {
        Some(v) => v as u32,
        None => 0,
    }
}

/// The low half of a command: vector in bits 0-7, delivery mode in 8-10,
/// destination mode in 11, level in 14, trigger mode in 15 and destination
/// shorthand in 18-19; every other bit clear.
pub open spec fn encode_low(
    vector: u32,
    delivery: u32,
    logical: bool,
    asserted: bool,
    level: bool,
    shorthand: u32,
) -> u32 {
    vector | (delivery << 8u32) | (if logical { 1u32 << 11u32 } else { 0u32 }) | (if asserted {
        1u32 << 14u32
    } else {
        0u32
    }) | (if level { 1u32 << 15u32 } else { 0u32 }) | (shorthand << 18u32)
}

/// Whether a command with these fields may be built:
/// - de-assert goes only with INIT delivery, level trigger and the
///   all-including-self shorthand;
/// - a vector is absent exactly for SMI and INIT delivery, and a present
///   vector is nonzero.
pub open spec fn is_valid_command(
    vector: Option<u8>,
    destination: InterruptDestination,
    delivery_mode: InterruptDeliveryMode,
    trigger_mode: InterruptTriggerMode,
    assert_mode: InterruptAssertMode,
) -> bool {
    &&& assert_mode == InterruptAssertMode::Deassert ==> delivery_mode
        == InterruptDeliveryMode::Init
    &&& assert_mode == InterruptAssertMode::Deassert ==> trigger_mode == InterruptTriggerMode::Level
    &&& assert_mode == InterruptAssertMode::Deassert ==> destination
        == InterruptDestination::AllIncludingSelf
    &&& (vector is Some <==> !(delivery_mode == InterruptDeliveryMode::SystemManagement
        || delivery_mode == InterruptDeliveryMode::Init))
    &&& (vector matches Some(v) ==> v != 0)
}


/// A complete interrupt command: the high half holds the destination field,
/// the low half everything else. It is fixed when built and never changed.
#[derive(Debug, Clone, Copy)]
pub struct InterruptCommand {
    high: u32,
    low: u32,
}

impl InterruptCommand {
    /// The high half of the command.
    pub closed spec fn spec_high(self) -> u32 {
        self.high
    }

    /// The low half of the command.
    pub closed spec fn spec_low(self) -> u32 {
        self.low
    }

    /// The command built from these fields.
    pub closed spec fn spec_new(
        vector: Option<u8>,
        destination: InterruptDestination,
        delivery_mode: InterruptDeliveryMode,
        destination_mode: InterruptDestinationMode,
        trigger_mode: InterruptTriggerMode,
        assert_mode: InterruptAssertMode,
    ) -> InterruptCommand {
        InterruptCommand {
            high: destination.field(),
            low: encode_low(
                vector_field(vector),
                delivery_mode.code(),
                destination_mode.bit(),
                assert_mode.bit(),
                trigger_mode.bit(),
                destination.shorthand(),
            ),
        }
    }

    /// The vector read back from the low half: none where the field is zero.
    pub open spec fn spec_vector(self) -> Option<u8> {
        let v = bits32(self.spec_low(), 0, 8);
        if v == 0 {
            None
        } else {
            Some(v as u8)
        }
    }

    /// The delivery-mode field of the low half.
    pub open spec fn spec_delivery_code(self) -> u32 {
        bits32(self.spec_low(), 8, 11)
    }

    /// The delivery mode read back from the low half.
    pub open spec fn spec_delivery_mode(self) -> Option<InterruptDeliveryMode> {
        InterruptDeliveryMode::from_code(self.spec_delivery_code())
    }

    /// The destination mode read back from the low half.
    pub open spec fn spec_destination_mode(self) -> InterruptDestinationMode {
        if bit32(self.spec_low(), 11) {
            InterruptDestinationMode::Logical
        } else {
            InterruptDestinationMode::Physical
        }
    }

    /// The trigger mode read back from the low half.
    pub open spec fn spec_trigger_mode(self) -> InterruptTriggerMode {
        if bit32(self.spec_low(), 15) {
            InterruptTriggerMode::Level
        } else {
            InterruptTriggerMode::Edge
        }
    }

    /// The level flag read back from the low half.
    pub open spec fn spec_assert_mode(self) -> InterruptAssertMode {
        if bit32(self.spec_low(), 14) {
            InterruptAssertMode::Assert
        } else {
            InterruptAssertMode::Deassert
        }
    }

    /// The destination read back from the shorthand field and the high half.
    pub open spec fn spec_destination(self) -> InterruptDestination {
        let s = bits32(self.spec_low(), 18, 20);
        if s == 0 {
            InterruptDestination::Processor { id: self.spec_high() }
        } else if s == 1 {
            InterruptDestination::OnlySelf
        } else if s == 2 {
            InterruptDestination::AllIncludingSelf
        } else {
            InterruptDestination::AllExcludingSelf
        }
    }

    /// Builds the command for these fields. Each field is written at its
    /// place in the low half (the vector in bits 0-7 only when present); an
    /// explicit processor ID goes to the high half, a shorthand to bits 18-19
    /// with a zero high half.
    pub fn new(
        vector: Option<u8>,
        destination: InterruptDestination,
        delivery_mode: InterruptDeliveryMode,
        destination_mode: InterruptDestinationMode,
        trigger_mode: InterruptTriggerMode,
        assert_mode: InterruptAssertMode,
    ) -> (r: InterruptCommand)
        requires
            is_valid_command(vector, destination, delivery_mode, trigger_mode, assert_mode),
        ensures
            r == InterruptCommand::spec_new(
                vector,
                destination,
                delivery_mode,
                destination_mode,
                trigger_mode,
                assert_mode,
            ),
            r.spec_high() == destination.field(),
            r.spec_low() == encode_low(
                vector_field(vector),
                delivery_mode.code(),
                destination_mode.bit(),
                assert_mode.bit(),
                trigger_mode.bit(),
                destination.shorthand(),
            ),
    {
        let mut high: u32 = 0;
        let mut low: u32 = 0;
        proof {
            lemma_low_mask32_values();
            lemma_encode_low(
                vector_field(vector),
                delivery_mode.code(),
                destination_mode.bit(),
                assert_mode.bit(),
                trigger_mode.bit(),
                destination.shorthand(),
            );
        }

        if let Some(vector) = vector {
            low = set_bits_u32(low, 0, 8, vector as u32);
        }
        let delivery = u32::from(delivery_mode);
        let logical = bool::from(destination_mode);
        let asserted = bool::from(assert_mode);
        let level = bool::from(trigger_mode);
        low = set_bits_u32(low, 8, 11, delivery);
        low = set_bit_u32(low, 11, logical);
        low = set_bit_u32(low, 14, asserted);
        low = set_bit_u32(low, 15, level);

        match destination {
            InterruptDestination::Processor { id } => {
                high = id;
            },
            InterruptDestination::OnlySelf => {
                low = set_bits_u32(low, 18, 20, 0b01);
            },
            InterruptDestination::AllIncludingSelf => {
                low = set_bits_u32(low, 18, 20, 0b10);
            },
            InterruptDestination::AllExcludingSelf => {
                low = set_bits_u32(low, 18, 20, 0b11);
            },
        }

        InterruptCommand { high, low }
    }

    /// The INIT request that resets the processor `apic_id` before start-up:
    /// INIT delivery, physical destination, level trigger, asserted, no vector.
    pub fn new_init(apic_id: u32) -> (r: InterruptCommand)
        ensures
            r.spec_high() == apic_id,
            r.spec_low() == encode_low(
                0,
                InterruptDeliveryMode::Init.code(),
                false,
                true,
                true,
                0,
            ),
            r.spec_delivery_code() == 0b101,
            !bit32(r.spec_low(), 11),
            bit32(r.spec_low(), 14),
            bit32(r.spec_low(), 15),
            bits32(r.spec_low(), 0, 8) == 0,
            bits32(r.spec_low(), 18, 20) == 0,
    {
        proof {
            lemma_encode_low(0, 0b101, false, true, true, 0);
        }
        InterruptCommand::new(
            None,
            InterruptDestination::Processor { id: apic_id },
            InterruptDeliveryMode::Init,
            InterruptDestinationMode::Physical,
            InterruptTriggerMode::Level,
            InterruptAssertMode::Assert,
        )
    }

    /// The start-up request that sends the processor `apic_id` to the page
    /// named by `vector`: start-up delivery, physical destination, edge
    /// trigger, asserted. A zero vector names no start-up page.
    pub fn new_sipi(vector: u8, apic_id: u32) -> (r: InterruptCommand)
        requires
            vector != 0,
        ensures
            r.spec_high() == apic_id,
            r.spec_low() == encode_low(
                vector as u32,
                InterruptDeliveryMode::StartUp.code(),
                false,
                true,
                false,
                0,
            ),
            r.spec_delivery_code() == 0b110,
            !bit32(r.spec_low(), 11),
            bit32(r.spec_low(), 14),
            !bit32(r.spec_low(), 15),
            bits32(r.spec_low(), 0, 8) == vector,
            bits32(r.spec_low(), 18, 20) == 0,
    {
        proof {
            lemma_encode_low(vector as u32, 0b110, false, true, false, 0);
        }
        InterruptCommand::new(
            Some(vector),
            InterruptDestination::Processor { id: apic_id },
            InterruptDeliveryMode::StartUp,
            InterruptDestinationMode::Physical,
            InterruptTriggerMode::Edge,
            InterruptAssertMode::Assert,
        )
    }

    /// The high half: the destination field.
    pub fn high(self) -> (r: u32)
        ensures
            r == self.spec_high(),
    {
        self.high
    }

    /// The low half: vector, modes and shorthand.
    pub fn low(self) -> (r: u32)
        ensures
            r == self.spec_low(),
    {
        self.low
    }

    /// Builds the command for these fields where they are valid, and
    /// returns `None` where `new` would refuse them.
    pub fn try_new(
        vector: Option<u8>,
        destination: InterruptDestination,
        delivery_mode: InterruptDeliveryMode,
        destination_mode: InterruptDestinationMode,
        trigger_mode: InterruptTriggerMode,
        assert_mode: InterruptAssertMode,
    ) -> (r: Option<InterruptCommand>)
        ensures
            r is Some <==> is_valid_command(
                vector,
                destination,
                delivery_mode,
                trigger_mode,
                assert_mode,
            ),
            r matches Some(c) ==> c == InterruptCommand::spec_new(
                vector,
                destination,
                delivery_mode,
                destination_mode,
                trigger_mode,
                assert_mode,
            ),
    {
        let deasserts = assert_mode == InterruptAssertMode::Deassert;
        if deasserts && delivery_mode != InterruptDeliveryMode::Init {
            return None;
        }
        if deasserts && trigger_mode != InterruptTriggerMode::Level {
            return None;
        }
        if deasserts && destination != InterruptDestination::AllIncludingSelf {
            return None;
        }
        let vectorless = delivery_mode == InterruptDeliveryMode::SystemManagement || delivery_mode
            == InterruptDeliveryMode::Init;
        match vector {
            Some(v) => {
                if vectorless || v == 0 {
                    return None;
                }
            },
            None => {
                if !vectorless {
                    return None;
                }
            },
        }
        Some(
            InterruptCommand::new(
                vector,
                destination,
                delivery_mode,
                destination_mode,
                trigger_mode,
                assert_mode,
            ),
        )
    }

    /// The vector of the command, or `None` where the field is zero.
    pub fn vector(self) -> (r: Option<u8>)
        ensures
            r == self.spec_vector(),
    {
        let v = get_bits_u32(self.low, 0, 8);
        proof {
            lemma_bits32_fits(self.low, 0, 8);
            lemma_low_mask32_values();
        }
        if v == 0 {
            None
        } else {
            Some(v as u8)
        }
    }

    /// The delivery mode of the command, or `None` for the reserved code.
    pub fn delivery_mode(self) -> (r: Option<InterruptDeliveryMode>)
        ensures
            r == self.spec_delivery_mode(),
    {
        InterruptDeliveryMode::from_bits(get_bits_u32(self.low, 8, 11))
    }

    /// The destination mode of the command.
    pub fn destination_mode(self) -> (r: InterruptDestinationMode)
        ensures
            r == self.spec_destination_mode(),
    {
        if get_bit_u32(self.low, 11) {
            InterruptDestinationMode::Logical
        } else {
            InterruptDestinationMode::Physical
        }
    }

    /// The trigger mode of the command.
    pub fn trigger_mode(self) -> (r: InterruptTriggerMode)
        ensures
            r == self.spec_trigger_mode(),
    {
        if get_bit_u32(self.low, 15) {
            InterruptTriggerMode::Level
        } else {
            InterruptTriggerMode::Edge
        }
    }

    /// The level flag of the command.
    pub fn assert_mode(self) -> (r: InterruptAssertMode)
        ensures
            r == self.spec_assert_mode(),
    {
        if get_bit_u32(self.low, 14) {
            InterruptAssertMode::Assert
        } else {
            InterruptAssertMode::Deassert
        }
    }

    /// The destination of the command.
    pub fn destination(self) -> (r: InterruptDestination)
        ensures
            r == self.spec_destination(),
    {
        let s = get_bits_u32(self.low, 18, 20);
        if s == 0 {
            InterruptDestination::Processor { id: self.high }
        } else if s == 1 {
            InterruptDestination::OnlySelf
        } else if s == 2 {
            InterruptDestination::AllIncludingSelf
        } else {
            InterruptDestination::AllExcludingSelf
        }
    }
}

/// A command built from valid fields reads back each of them: vector,
/// destination, delivery mode, destination mode, trigger mode and level.
pub proof fn lemma_command_round_trip(
    vector: Option<u8>,
    destination: InterruptDestination,
    delivery_mode: InterruptDeliveryMode,
    destination_mode: InterruptDestinationMode,
    trigger_mode: InterruptTriggerMode,
    assert_mode: InterruptAssertMode,
)
    requires
        is_valid_command(vector, destination, delivery_mode, trigger_mode, assert_mode),
    ensures
        ({
            let c = InterruptCommand::spec_new(
                vector,
                destination,
                delivery_mode,
                destination_mode,
                trigger_mode,
                assert_mode,
            );
            &&& c.spec_vector() == vector
            &&& c.spec_destination() == destination
            &&& c.spec_delivery_mode() == Some(delivery_mode)
            &&& c.spec_destination_mode() == destination_mode
            &&& c.spec_trigger_mode() == trigger_mode
            &&& c.spec_assert_mode() == assert_mode
        }),
{
    lemma_encode_low(
        vector_field(vector),
        delivery_mode.code(),
        destination_mode.bit(),
        assert_mode.bit(),
        trigger_mode.bit(),
        destination.shorthand(),
    );
}

/// The field combinations that no command may have: de-assert with any
/// delivery mode but INIT, de-assert with edge trigger, a vector with SMI or
/// INIT delivery, and no vector with any other delivery mode.
pub proof fn lemma_refused_commands(
    vector: Option<u8>,
    destination: InterruptDestination,
    delivery_mode: InterruptDeliveryMode,
    trigger_mode: InterruptTriggerMode,
    assert_mode: InterruptAssertMode,
)
    ensures
        assert_mode == InterruptAssertMode::Deassert && delivery_mode
            != InterruptDeliveryMode::Init ==> !is_valid_command(
            vector,
            destination,
            delivery_mode,
            trigger_mode,
            assert_mode,
        ),
        assert_mode == InterruptAssertMode::Deassert && trigger_mode == InterruptTriggerMode::Edge
            ==> !is_valid_command(vector, destination, delivery_mode, trigger_mode, assert_mode),
        vector is Some && (delivery_mode == InterruptDeliveryMode::SystemManagement
            || delivery_mode == InterruptDeliveryMode::Init) ==> !is_valid_command(
            vector,
            destination,
            delivery_mode,
            trigger_mode,
            assert_mode,
        ),
        vector is None && delivery_mode != InterruptDeliveryMode::SystemManagement && delivery_mode
            != InterruptDeliveryMode::Init ==> !is_valid_command(
            vector,
            destination,
            delivery_mode,
            trigger_mode,
            assert_mode,
        ),
{
}

/// Building the low half field by field, as `InterruptCommand::new` does,
/// gives `encode_low`; each field reads back from it.
proof fn lemma_encode_low(v: u32, d: u32, logical: bool, asserted: bool, level: bool, s: u32)
    by (bit_vector)
    requires
        v <= 0xff,
        d <= 7,
        s <= 3,
    ensures
        with_bits32(0, 0, 8, 0) == 0,
        with_bit32(
            with_bit32(
                with_bit32(with_bits32(with_bits32(0, 0, 8, v), 8, 11, d), 11, logical),
                14,
                asserted,
            ),
            15,
            level,
        ) == encode_low(v, d, logical, asserted, level, 0),
        with_bits32(encode_low(v, d, logical, asserted, level, 0), 18, 20, s) == encode_low(
            v,
            d,
            logical,
            asserted,
            level,
            s,
        ),
        bits32(encode_low(v, d, logical, asserted, level, s), 0, 8) == v,
        bits32(encode_low(v, d, logical, asserted, level, s), 8, 11) == d,
        bit32(encode_low(v, d, logical, asserted, level, s), 11) == logical,
        bit32(encode_low(v, d, logical, asserted, level, s), 14) == asserted,
        bit32(encode_low(v, d, logical, asserted, level, s), 15) == level,
        bits32(encode_low(v, d, logical, asserted, level, s), 18, 20) == s,
{
}

} // verus!
