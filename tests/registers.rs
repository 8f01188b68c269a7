use eva::registers::{Register, Stack};

#[test]
fn narrow_values_take_the_low_bits() {
    let mut r = Register::new(0);
    r.set(0xABu8);
    assert_eq!(r.value, 0xAB);
    r.set(-1i8);
    assert_eq!(r.value, u64::MAX);
    assert_eq!(r.get::<u8>(), 0xFF);
    assert_eq!(r.get::<i16>(), -1);
    r.set(0x1234_5678u32);
    assert_eq!(r.get::<u16>(), 0x5678);
    assert_eq!(r.get::<i64>(), 0x1234_5678);
    r.set(true);
    assert_eq!(r.value, 1);
    assert!(r.get::<bool>());
}

#[test]
fn float_bits_are_kept_exactly() {
    let mut r = Register::new(0);
    r.set(f64::to_bits(-0.0));
    assert_eq!(f64::from_bits(r.get::<u64>()).to_bits(), (-0.0f64).to_bits());
    r.set(f32::NAN.to_bits());
    assert!(f32::from_bits(r.get::<u32>()).is_nan());
}

#[test]
fn stack_is_zeroed_and_bounded() {
    let mut s = Stack::new(3);
    assert_eq!(s.capacity(), 3);
    assert_eq!(s.read_as::<u64>(2), Some(0));
    assert_eq!(s.read_as::<u64>(3), None);
    assert!(s.write_as(1, -2i32));
    assert_eq!(s.read_as::<i32>(1), Some(-2));
    assert!(!s.write_as(3, 1u8));
}
