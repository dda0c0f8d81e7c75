use id30::{Id30, OutOfRangeError};

#[test]
fn try_from_good_range() {
    assert!(Id30::try_from(0u32).is_ok());
    assert!(Id30::try_from(((1 << 30) - 1) as u32).is_ok());
    assert!(Id30::try_from(0x3fff_ffffu32).is_ok());
    assert!(Id30::try_from(0x1234_5678u32).is_ok());

    assert!(Id30::try_from(0i32).is_ok());
    assert!(Id30::try_from(((1 << 30) - 1) as i32).is_ok());
    assert!(Id30::try_from(0x3fff_ffffi32).is_ok());
    assert!(Id30::try_from(0x1234_5678i32).is_ok());
}

#[test]
fn try_from_overflow_range() {
    assert!(Id30::try_from(0xffff_ffffu32).is_err());
    assert!(Id30::try_from(0x4000_0000).is_err());

    assert!(Id30::try_from(-0x8000_0000).is_err());
    assert!(Id30::try_from(-1).is_err());
}

#[test]
fn out_of_range_error_value() {
    assert_eq!(Id30::try_from(0x4000_0000u32), Err(OutOfRangeError));
    assert_eq!(Id30::try_from(-1i32), Err(OutOfRangeError));
}

#[test]
fn into_integers() {
    let id = Id30::try_from(1234u32).unwrap();
    assert_eq!(u32::from(id), 1234);
    assert_eq!(i32::from(id), 1234);
    assert_eq!(id.to_u32(), 1234);

    let max = Id30::try_from(0x3fff_ffffu32).unwrap();
    assert_eq!(u32::from(max), 0x3fff_ffff);
    assert_eq!(i32::from(max), 0x3fff_ffff);
}

#[test]
fn ordering_follows_integer() {
    let a = Id30::try_from(5u32).unwrap();
    let b = Id30::try_from(500_000u32).unwrap();
    assert!(a < b);
    assert_eq!(a, Id30::try_from(5u32).unwrap());
}

#[test]
fn sampling_stays_in_range() {
    for _ in 0..64 {
        let id = Id30::sample();
        assert!(u32::from(id) < 1 << 30);
    }
}

#[test]
fn from_random_u32_keeps_high_bits() {
    let id = Id30::from_random_u32(0xffff_ffff);
    assert_eq!(u32::from(id), 0x3fff_ffff);

    let id = Id30::from_random_u32(0x8000_0003);
    assert_eq!(u32::from(id), 0x2000_0000);

    let id = Id30::from_random_u32(3);
    assert_eq!(u32::from(id), 0);
}
