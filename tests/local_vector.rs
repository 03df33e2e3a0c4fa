use apic::local_vector::tsc_deadline_supported;
use apic::{InterruptDeliveryMode, LocalVector, TimerMode, CMCI, Error, LINT0, Timer};

#[test]
fn masked_bit_sixteen() {
    let mut v = LocalVector::<LINT0>::new(0x0000_0030);
    assert!(!v.get_masked());
    v.set_masked(true);
    assert!(v.get_masked());
    assert_eq!(u32::from(v.clone()), 0x0001_0030);
    v.set_masked(false);
    assert_eq!(u32::from(v), 0x0000_0030);
}

#[test]
fn vector_bits_zero_to_seven() {
    let mut v = LocalVector::<Error>::new(0x0001_10ff);
    assert_eq!(v.get_vector(), 0xff);
    v.set_vector(0x20);
    assert_eq!(v.get_vector(), 0x20);
    assert_eq!(u32::from(v.clone()), 0x0001_1020);
    v.set_vector(16);
    assert_eq!(u64::from(v), 0x0001_1010u64);
}

#[test]
fn delivery_status_bit_twelve() {
    assert!(LocalVector::<Timer>::new(1 << 12).get_delivery_status());
    assert!(!LocalVector::<Timer>::new(!(1 << 12)).get_delivery_status());
}

#[test]
fn delivery_mode_bits_eight_to_ten() {
    let mut v = LocalVector::<CMCI>::new(0x0001_0740);
    v.set_delivery_mode(InterruptDeliveryMode::NonMaskable);
    assert_eq!(u32::from(v.clone()), 0x0001_0440);
    v.set_delivery_mode(InterruptDeliveryMode::Fixed);
    assert_eq!(u32::from(v), 0x0001_0040);
}

#[test]
fn timer_mode_reads_back() {
    let mut v = LocalVector::<Timer>::new(0x0001_0030);
    assert_eq!(v.get_mode(), TimerMode::OneShot);
    v.set_mode(TimerMode::Periodic, false);
    assert_eq!(v.get_mode(), TimerMode::Periodic);
    assert_eq!(u32::from(v.clone()), 0x0003_0030);
    v.set_mode(TimerMode::TscDeadline, true);
    assert_eq!(v.get_mode(), TimerMode::TscDeadline);
    assert_eq!(u32::from(v.clone()), 0x0005_0030);
    v.set_mode(TimerMode::OneShot, true);
    assert_eq!(u32::from(v), 0x0001_0030);
}

#[test]
fn timer_mode_codes() {
    assert_eq!(u32::from(TimerMode::OneShot), 0b00);
    assert_eq!(u32::from(TimerMode::Periodic), 0b01);
    assert_eq!(u32::from(TimerMode::TscDeadline), 0b10);
    assert_eq!(TimerMode::try_from(0b10), Ok(TimerMode::TscDeadline));
    assert_eq!(TimerMode::try_from(0b11), Err(0b11));
}

#[test]
fn fence_only_for_tsc_deadline() {
    assert!(LocalVector::<Timer>::new(0b10 << 17).needs_fence_after_write());
    assert!(!LocalVector::<Timer>::new(0b01 << 17).needs_fence_after_write());
    assert!(!LocalVector::<Timer>::new(0).needs_fence_after_write());
    assert!(!LocalVector::<Timer>::new(0b11 << 17).needs_fence_after_write());
}

#[test]
fn tsc_deadline_capability_bit() {
    assert!(tsc_deadline_supported(1 << 24));
    assert!(!tsc_deadline_supported(!(1 << 24)));
}
