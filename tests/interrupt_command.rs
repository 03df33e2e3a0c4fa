use apic::x2::interrupt_command_value;
use apic::{
    InterruptAssertMode, InterruptCommand, InterruptDeliveryMode, InterruptDestination,
    InterruptDestinationMode, InterruptTriggerMode,
};

#[test]
fn new_init_bits() {
    let c = InterruptCommand::new_init(7);
    assert_eq!(c.high(), 7);
    assert_eq!((c.low() >> 8) & 0b111, 0b101);
    assert_eq!((c.low() >> 11) & 1, 0);
    assert_eq!((c.low() >> 14) & 1, 1);
    assert_eq!((c.low() >> 15) & 1, 1);
    assert_eq!(c.low(), 0xC500);
}

#[test]
fn new_sipi_bits() {
    let c = InterruptCommand::new_sipi(0x08, 3);
    assert_eq!(c.high(), 3);
    assert_eq!((c.low() >> 8) & 0b111, 0b110);
    assert_eq!((c.low() >> 15) & 1, 0);
    assert_eq!((c.low() >> 14) & 1, 1);
    assert_eq!(c.low() & 0xff, 0x08);
    assert_eq!(c.low(), 0x4608);
}

#[test]
fn fixed_logical_level_to_processor() {
    let c = InterruptCommand::new(
        Some(0x41),
        InterruptDestination::Processor { id: 0x1234_5678 },
        InterruptDeliveryMode::Fixed,
        InterruptDestinationMode::Logical,
        InterruptTriggerMode::Level,
        InterruptAssertMode::Assert,
    );
    assert_eq!(c.high(), 0x1234_5678);
    assert_eq!(c.low(), 0x41 | (1 << 11) | (1 << 14) | (1 << 15));
}

#[test]
fn shorthand_codes() {
    let cases = [
        (InterruptDestination::OnlySelf, 0b01u32),
        (InterruptDestination::AllIncludingSelf, 0b10),
        (InterruptDestination::AllExcludingSelf, 0b11),
    ];
    for (destination, code) in cases {
        let c = InterruptCommand::new(
            Some(0x30),
            destination,
            InterruptDeliveryMode::Fixed,
            InterruptDestinationMode::Physical,
            InterruptTriggerMode::Edge,
            InterruptAssertMode::Assert,
        );
        assert_eq!(c.high(), 0);
        assert_eq!((c.low() >> 18) & 0b11, code);
        assert_eq!(c.low(), 0x30 | (1 << 14) | (code << 18));
        assert_eq!(c.destination(), destination);
    }
}

#[test]
fn fields_read_back() {
    let modes = [
        (InterruptDeliveryMode::Fixed, Some(0x20u8)),
        (InterruptDeliveryMode::LowPriority, Some(0x21)),
        (InterruptDeliveryMode::SystemManagement, None),
        (InterruptDeliveryMode::NonMaskable, Some(0x22)),
        (InterruptDeliveryMode::Init, None),
        (InterruptDeliveryMode::StartUp, Some(0x09)),
        (InterruptDeliveryMode::External, Some(0xff)),
    ];
    let destinations = [
        InterruptDestination::Processor { id: 0xffff_ffff },
        InterruptDestination::Processor { id: 0 },
        InterruptDestination::OnlySelf,
        InterruptDestination::AllIncludingSelf,
        InterruptDestination::AllExcludingSelf,
    ];
    for (delivery, vector) in modes {
        for destination in destinations {
            for dest_mode in [InterruptDestinationMode::Physical, InterruptDestinationMode::Logical] {
                for trigger in [InterruptTriggerMode::Edge, InterruptTriggerMode::Level] {
                    let c = InterruptCommand::new(
                        vector,
                        destination,
                        delivery,
                        dest_mode,
                        trigger,
                        InterruptAssertMode::Assert,
                    );
                    assert_eq!(c.vector(), vector);
                    assert_eq!(c.destination(), destination);
                    assert_eq!(c.delivery_mode(), Some(delivery));
                    assert_eq!(c.destination_mode(), dest_mode);
                    assert_eq!(c.trigger_mode(), trigger);
                    assert_eq!(c.assert_mode(), InterruptAssertMode::Assert);
                }
            }
        }
    }
}

#[test]
fn init_deassert_reads_back() {
    let c = InterruptCommand::try_new(
        None,
        InterruptDestination::AllIncludingSelf,
        InterruptDeliveryMode::Init,
        InterruptDestinationMode::Physical,
        InterruptTriggerMode::Level,
        InterruptAssertMode::Deassert,
    )
    .unwrap();
    assert_eq!(c.low(), 0x500 | (1 << 15) | (0b10 << 18));
    assert_eq!(c.assert_mode(), InterruptAssertMode::Deassert);
    assert_eq!(c.trigger_mode(), InterruptTriggerMode::Level);
    assert_eq!(c.vector(), None);
}

#[test]
fn deassert_needs_init_level_and_broadcast() {
    let refused = [
        (None, InterruptDestination::AllIncludingSelf, InterruptDeliveryMode::SystemManagement, InterruptTriggerMode::Level),
        (Some(0x30), InterruptDestination::AllIncludingSelf, InterruptDeliveryMode::Fixed, InterruptTriggerMode::Level),
        (None, InterruptDestination::AllIncludingSelf, InterruptDeliveryMode::Init, InterruptTriggerMode::Edge),
        (None, InterruptDestination::Processor { id: 1 }, InterruptDeliveryMode::Init, InterruptTriggerMode::Level),
        (None, InterruptDestination::OnlySelf, InterruptDeliveryMode::Init, InterruptTriggerMode::Level),
        (None, InterruptDestination::AllExcludingSelf, InterruptDeliveryMode::Init, InterruptTriggerMode::Level),
    ];
    for (vector, destination, delivery, trigger) in refused {
        let c = InterruptCommand::try_new(
            vector,
            destination,
            delivery,
            InterruptDestinationMode::Physical,
            trigger,
            InterruptAssertMode::Deassert,
        );
        assert!(c.is_none());
    }
}

#[test]
fn vector_presence_follows_delivery_mode() {
    let build = |vector: Option<u8>, delivery: InterruptDeliveryMode| {
        InterruptCommand::try_new(
            vector,
            InterruptDestination::Processor { id: 2 },
            delivery,
            InterruptDestinationMode::Physical,
            InterruptTriggerMode::Edge,
            InterruptAssertMode::Assert,
        )
    };
    assert!(build(Some(0x40), InterruptDeliveryMode::SystemManagement).is_none());
    assert!(build(Some(0x40), InterruptDeliveryMode::Init).is_none());
    assert!(build(None, InterruptDeliveryMode::Fixed).is_none());
    assert!(build(None, InterruptDeliveryMode::LowPriority).is_none());
    assert!(build(None, InterruptDeliveryMode::NonMaskable).is_none());
    assert!(build(None, InterruptDeliveryMode::StartUp).is_none());
    assert!(build(None, InterruptDeliveryMode::External).is_none());
    assert!(build(Some(0), InterruptDeliveryMode::Fixed).is_none());
    assert!(build(None, InterruptDeliveryMode::SystemManagement).is_some());
    assert!(build(None, InterruptDeliveryMode::Init).is_some());
    let c = build(Some(0x40), InterruptDeliveryMode::Fixed).unwrap();
    assert_eq!(c.low(), 0x40 | (1 << 14));
    assert_eq!(c.high(), 2);
}

#[test]
fn x2_broadcast_init_is_sent_low_priority_refused() {
    let init = InterruptCommand::try_new(
        None,
        InterruptDestination::AllIncludingSelf,
        InterruptDeliveryMode::Init,
        InterruptDestinationMode::Physical,
        InterruptTriggerMode::Level,
        InterruptAssertMode::Assert,
    )
    .unwrap();
    assert_eq!(
        interrupt_command_value(init),
        Some(0x500 | (1 << 14) | (1 << 15) | (0b10 << 18))
    );

    let low_priority = InterruptCommand::try_new(
        Some(0x50),
        InterruptDestination::AllIncludingSelf,
        InterruptDeliveryMode::LowPriority,
        InterruptDestinationMode::Physical,
        InterruptTriggerMode::Edge,
        InterruptAssertMode::Assert,
    )
    .unwrap();
    assert_eq!((low_priority.low() >> 8) & 0b111, 0b001);
    assert_eq!(interrupt_command_value(low_priority), None);
}

#[test]
fn x2_value_puts_destination_above_low_half() {
    let c = InterruptCommand::new_sipi(0x9a, 0x0102_0304);
    assert_eq!(interrupt_command_value(c), Some((0x0102_0304u64 << 32) | 0x469a));
}

#[test]
fn delivery_mode_codes() {
    assert_eq!(u32::from(InterruptDeliveryMode::Fixed), 0b000);
    assert_eq!(u32::from(InterruptDeliveryMode::LowPriority), 0b001);
    assert_eq!(u32::from(InterruptDeliveryMode::SystemManagement), 0b010);
    assert_eq!(u32::from(InterruptDeliveryMode::NonMaskable), 0b100);
    assert_eq!(u32::from(InterruptDeliveryMode::Init), 0b101);
    assert_eq!(u32::from(InterruptDeliveryMode::StartUp), 0b110);
    assert_eq!(u32::from(InterruptDeliveryMode::External), 0b111);
    assert_eq!(InterruptDeliveryMode::from_bits(0b011), None);
    assert_eq!(InterruptDeliveryMode::from_bits(0b110), Some(InterruptDeliveryMode::StartUp));
    assert!(bool::from(InterruptDestinationMode::Logical));
    assert!(!bool::from(InterruptDestinationMode::Physical));
    assert!(bool::from(InterruptTriggerMode::Level));
    assert!(!bool::from(InterruptTriggerMode::Edge));
    assert!(bool::from(InterruptAssertMode::Assert));
    assert!(!bool::from(InterruptAssertMode::Deassert));
}

#[test]
fn xapic_command_registers() {
    let c = InterruptCommand::new_init(0x0f);
    assert_eq!(apic::x1::interrupt_command_registers(c), Some((0x0f00_0000, 0xC500)));
    let wide = InterruptCommand::new_init(0x100);
    assert_eq!(apic::x1::interrupt_command_registers(wide), None);
    assert_eq!(apic::x1::id_of(0x0300_0000), 3);
}
