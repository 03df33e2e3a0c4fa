use apic::base::{ActiveMode, ApicBase};
use apic::x2::{msr_halves, msr_value, Register};
use apic::{ErrorStatus, SpuriousInterruptVector, TimerDivideConfiguration, Version};

#[test]
fn version_fields() {
    let v = Version::new(0x0105_0014);
    assert_eq!(v.version(), 0x14);
    assert_eq!(v.max_lvt_entry(), 5);
    assert!(v.can_suppress_eoi_broadcast());
    let v = Version::new(0x0006_0015);
    assert_eq!(v.version(), 0x15);
    assert_eq!(v.max_lvt_entry(), 6);
    assert!(!v.can_suppress_eoi_broadcast());
}

#[test]
fn error_status_sent_illegal_vector_only() {
    let s = ErrorStatus::from_bits_truncate(1 << 5);
    assert!(s.contains(ErrorStatus::SENT_ILLEGAL_VECTOR));
    for flag in [
        ErrorStatus::SEND_CHECKSUM_ERROR,
        ErrorStatus::RECEIVE_CHECKSUM_ERROR,
        ErrorStatus::SEND_ACCEPT_ERROR,
        ErrorStatus::RECEIVE_ACCEPT_ERROR,
        ErrorStatus::REDIRECTABLE_IPI,
        ErrorStatus::RECEIVED_ILLEGAL_VECTOR,
        ErrorStatus::ILLEGAL_REGISTER_ADDRESS,
    ] {
        assert!(!s.contains(flag));
    }
}

#[test]
fn error_status_drops_unnamed_bits() {
    let s = ErrorStatus::from_bits_truncate(0xffff_ff81);
    assert_eq!(s.bits(), 0x81);
    assert!(s.contains(ErrorStatus::SEND_CHECKSUM_ERROR | ErrorStatus::ILLEGAL_REGISTER_ADDRESS));
    assert!(!s.contains(ErrorStatus::SEND_CHECKSUM_ERROR | ErrorStatus::REDIRECTABLE_IPI));
}

#[test]
fn timer_divisors_round_trip() {
    let table = [
        (1u32, 0b1011u32),
        (2, 0b0000),
        (4, 0b0001),
        (8, 0b0010),
        (16, 0b0011),
        (32, 0b1000),
        (64, 0b1001),
        (128, 0b1010),
    ];
    for (divisor, bits) in table {
        let c = TimerDivideConfiguration::from_divisor(divisor).unwrap();
        assert_eq!(c.bits(), bits);
        assert_eq!(TimerDivideConfiguration::from_bits_truncate(bits).divisor(), divisor);
    }
    assert_eq!(TimerDivideConfiguration::DIVIDE_1, 0b1011);
    assert_eq!(TimerDivideConfiguration::DIVIDE_2, 0b0000);
    assert!(TimerDivideConfiguration::from_divisor(3).is_none());
    assert!(TimerDivideConfiguration::from_divisor(0).is_none());
    assert!(TimerDivideConfiguration::from_divisor(256).is_none());
}

#[test]
fn timer_divide_drops_reserved_bits() {
    let c = TimerDivideConfiguration::from_bits_truncate(0xffff_fff4);
    assert_eq!(c.bits(), 0);
    assert_eq!(c.divisor(), 2);
}

#[test]
fn spurious_vector_fields() {
    let mut s = SpuriousInterruptVector::new(0x0000_00ff);
    assert_eq!(s.get_vector(), 0xff);
    assert!(!s.get_apic_software_enabled());
    s.set_apic_software_enabled(true);
    s.set_focus_processor_checking(true);
    s.set_eoi_broadcast_suppression(true);
    s.set_vector(0x27);
    assert_eq!(s.bits(), 0x1327);
    assert!(s.get_apic_software_enabled());
    assert!(s.get_focus_processor_checking());
    assert!(s.get_eoi_broadcast_suppression());
    s.set_focus_processor_checking(false);
    assert_eq!(s.bits(), 0x1127);
}

#[test]
fn apic_base_modes() {
    let xapic = ApicBase::new(0xFEE0_0900);
    assert!(xapic.is_enabled());
    assert!(!xapic.is_x2_mode());
    assert_eq!(xapic.base_address(), 0xFEE0_0000);
    assert_eq!(
        xapic.active_mode(),
        Some(ActiveMode::XApic { base_address: 0xFEE0_0000 })
    );
    let x2 = ApicBase::new(0xFEE0_0D00);
    assert_eq!(x2.active_mode(), Some(ActiveMode::X2Apic));
    let disabled = ApicBase::new(0xFEE0_0500);
    assert_eq!(disabled.active_mode(), None);
    let high = ApicBase::new(0xFFFF_F00F_0012_3800);
    assert_eq!(high.base_address(), 0x0_0012_3000 | 0xF_0000_0000);
}

#[test]
fn x2_register_map() {
    assert_eq!(Register::Id.msr(), 0x802);
    assert_eq!(Register::InterruptCommand.msr(), 0x830);
    assert_eq!(Register::TimerVector.msr(), 0x832);
    assert_eq!(Register::CmciVector.msr(), 0x82F);
    assert_eq!(Register::TimerDivideConfiguration.msr(), 0x83E);
    assert_eq!(Register::EndOfInterrupt.xapic_offset(), 0xB0);
    assert_eq!(Register::InterruptCommand.xapic_offset(), 0x300);
}

#[test]
fn msr_halves_and_value() {
    assert_eq!(msr_halves(0x1234_5678_9abc_def0), (0x9abc_def0, 0x1234_5678));
    assert_eq!(msr_value(0x9abc_def0, 0x1234_5678), 0x1234_5678_9abc_def0);
    assert_eq!(msr_halves(0xffff_0000), (0xffff_0000, 0));
}
