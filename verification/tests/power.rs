use exercises::power::Power;

#[test]
fn test_power_u16() {
    let x: u32 = 2_u32.power(3u16);
    assert_eq!(x, 8);
}

#[test]
fn test_power_u32() {
    let x: u32 = 2_u32.power(3u32);
    assert_eq!(x, 8);
}

#[test]
fn test_power_ref_u32() {
    let x: u32 = 2_u32.power(&3u32);
    assert_eq!(x, 8);
}

#[test]
fn power_zero_exponent_is_one() {
    assert_eq!(7_u32.power(0u16), 1);
    assert_eq!(0_u32.power(0u32), 1);
    assert_eq!(0_u32.power(&5u32), 0);
}

#[test]
fn power_largest_that_fits() {
    assert_eq!(2_u32.power(31u32), 2_147_483_648);
    assert_eq!(65_535_u32.power(2u16), 4_294_836_225);
    assert_eq!(1_u32.power(&u32::MAX), 1);
}

#[test]
fn power_exponent_types_agree() {
    for base in 0u32..12 {
        for n in 0u16..8 {
            let a = base.power(n);
            let b = base.power(n as u32);
            let c = base.power(&(n as u32));
            assert_eq!(a, b);
            assert_eq!(b, c);
        }
    }
}
