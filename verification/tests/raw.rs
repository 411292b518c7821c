use ffi_gen::abi::raw::{
    bits, join, lift_bool, lift_option, lift_result, lower_bool, lower_option, lower_result, signed,
    split, ABSENT, FAILED, PRESENT, SUCCEEDED,
};

#[test]
fn booleans_cross_as_one_byte() {
    assert_eq!(lower_bool(true), 1);
    assert_eq!(lower_bool(false), 0);
    assert!(!lift_bool(0));
    assert!(lift_bool(1));
    assert!(lift_bool(255));
    for value in [true, false] {
        assert_eq!(lift_bool(lower_bool(value)), value);
    }
}

#[test]
fn discriminants_follow_the_layout() {
    assert_eq!(ABSENT, 0);
    assert_eq!(PRESENT, 1);
    assert_eq!(FAILED, 0);
    assert_eq!(SUCCEEDED, 1);
    assert_eq!(lower_option(false), 0);
    assert_eq!(lower_option(true), 1);
    assert_eq!(lower_result(true), 1);
    assert_eq!(lower_result(false), 0);
    for flag in [true, false] {
        assert_eq!(lift_option(lower_option(flag)), flag);
        assert_eq!(lift_result(lower_result(flag)), flag);
    }
    assert!(lift_option(7));
    assert!(!lift_result(0));
}

#[test]
fn wide_numbers_cross_in_two_halves() {
    assert_eq!(split(0), (0, 0));
    assert_eq!(split(1), (1, 0));
    assert_eq!(split(0x1234_5678_9abc_def0), (0x9abc_def0, 0x1234_5678));
    assert_eq!(split(u64::MAX), (u32::MAX, u32::MAX));
    assert_eq!(join(0x9abc_def0, 0x1234_5678), 0x1234_5678_9abc_def0);
    for value in [0, 1, 0xffff_ffff, 0x1_0000_0000, u64::MAX - 1, u64::MAX] {
        let (low, high) = split(value);
        assert_eq!(join(low, high), value);
    }
}

#[test]
fn signed_numbers_cross_by_their_bits() {
    assert_eq!(bits(0), 0);
    assert_eq!(bits(-1), u64::MAX);
    assert_eq!(bits(i64::MIN), 0x8000_0000_0000_0000);
    assert_eq!(bits(i64::MAX), 0x7fff_ffff_ffff_ffff);
    assert_eq!(signed(u64::MAX), -1);
    for value in [i64::MIN, i64::MIN + 1, -1, 0, 1, i64::MAX] {
        assert_eq!(bits(value), value as u64);
        let (low, high) = split(bits(value));
        assert_eq!(signed(join(low, high)), value);
    }
}
