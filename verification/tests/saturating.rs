use exercises::saturating::SaturatingU16;

#[test]
fn conversions() {
    let a: SaturatingU16 = 10u8.into();
    let b: SaturatingU16 = 10u16.into();
    let c: SaturatingU16 = (&10u16).into();
    let d: SaturatingU16 = (&10u8).into();
    assert_eq!(a, b);
    assert_eq!(b, c);
    assert_eq!(c, d);
    assert_eq!(a, 10u16);
    assert_eq!(10u16, a);
    assert_eq!(SaturatingU16::from(255u8), 255u16);
}

#[test]
fn addition_of_all_right_hand_sides() {
    let a = SaturatingU16::from(10u16);
    let b = SaturatingU16::from(5u16);
    assert_eq!(a + b, 15u16);
    assert_eq!(a + &b, 15u16);
    assert_eq!(a + 5u16, 15u16);
    assert_eq!(a + &5u16, 15u16);
}

#[test]
fn addition_saturates() {
    let max = SaturatingU16::from(u16::MAX);
    let one = SaturatingU16::from(1u16);
    assert_eq!(max + one, u16::MAX);
    assert_eq!(max + 1u16, u16::MAX);
    assert_eq!(max + max, u16::MAX);
    assert_eq!(SaturatingU16::from(65_000u16) + 600u16, 65_535u16);
    assert_eq!(SaturatingU16::from(65_000u16) + 535u16, 65_535u16);
    assert_eq!(SaturatingU16::from(65_000u16) + 534u16, 65_534u16);
}

#[test]
fn addition_laws_on_values() {
    let a = SaturatingU16::from(40_000u16);
    let b = SaturatingU16::from(30_000u16);
    let c = SaturatingU16::from(7u16);
    assert_eq!(a + b, b + a);
    assert_eq!((a + b) + c, a + (b + c));
    assert_eq!(a + 0u16, a);
    assert_eq!(SaturatingU16::from(1u16) + 2u16 + 3u16, 6u16);
}

#[test]
fn equality() {
    let a = SaturatingU16::from(3u16);
    assert!(a == 3u16);
    assert!(3u16 == a);
    assert!(a != 4u16);
    assert!(4u16 != a);
    assert!(a != SaturatingU16::from(4u16));
    assert_eq!(format!("{:?}", a), "SaturatingU16(3)");
}
