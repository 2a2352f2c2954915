use sage::convert::Convert;
use sage::error::DatabaseError;

#[test]
fn vec_to_fixed_array() {
    let v: Vec<u8> = vec![1, 2, 3, 4];
    let result: [u8; 4] = v.convert().unwrap();
    assert_eq!(result, [1, 2, 3, 4]);
}

#[test]
fn vec_to_fixed_array_wrong_length() {
    let v: Vec<u8> = vec![1, 2, 3];
    let result: std::result::Result<[u8; 4], _> = v.convert();
    assert!(result.is_err());
}

#[test]
fn i64_to_u32() {
    let v: i64 = 42;
    let result: u32 = v.convert().unwrap();
    assert_eq!(result, 42);
}

#[test]
fn i64_to_u32_max() {
    let v: i64 = u32::MAX as i64;
    let result: u32 = v.convert().unwrap();
    assert_eq!(result, u32::MAX);
}

#[test]
fn negative_i64_to_u32_fails() {
    let v: i64 = -1;
    let result: std::result::Result<u32, _> = v.convert();
    assert!(result.is_err());
}

#[test]
fn i64_to_u64() {
    let v: i64 = 1_000_000;
    let result: u64 = v.convert().unwrap();
    assert_eq!(result, 1_000_000);
}

#[test]
fn i64_to_u8() {
    let v: i64 = 255;
    let result: u8 = v.convert().unwrap();
    assert_eq!(result, 255);
}

#[test]
fn i64_to_u8_overflow() {
    let v: i64 = 256;
    let result: std::result::Result<u8, _> = v.convert();
    assert!(result.is_err());
}

#[test]
fn i64_to_u16() {
    let v: i64 = 65535;
    let result: u16 = v.convert().unwrap();
    assert_eq!(result, 65535);
}

#[test]
fn option_some_converts() {
    let v: Option<i64> = Some(42);
    let result: Option<u32> = v.convert().unwrap();
    assert_eq!(result, Some(42));
}

#[test]
fn option_none_converts() {
    let v: Option<i64> = None;
    let result: Option<u32> = v.convert().unwrap();
    assert_eq!(result, None);
}

#[test]
fn vec_to_u64_via_be_bytes() {
    let v: Vec<u8> = 1000u64.to_be_bytes().to_vec();
    let result: u64 = v.convert().unwrap();
    assert_eq!(result, 1000);
}

#[test]
fn vec_to_u128_via_be_bytes() {
    let v: Vec<u8> = 999u128.to_be_bytes().to_vec();
    let result: u128 = v.convert().unwrap();
    assert_eq!(result, 999);
}

#[test]
fn wrong_length_reports_both_lengths() {
    let v: Vec<u8> = vec![0; 31];
    let result: std::result::Result<[u8; 32], _> = v.convert();
    assert!(matches!(result, Err(DatabaseError::InvalidLength(31, 32))));
}

#[test]
fn amount_reads_most_significant_byte_first() {
    let v: Vec<u8> = vec![0, 0, 0, 0, 0, 0, 1, 2];
    let result: u64 = v.convert().unwrap();
    assert_eq!(result, 258);
    let max: Vec<u8> = vec![0xff; 8];
    let result: u64 = max.convert().unwrap();
    assert_eq!(result, u64::MAX);
}

#[test]
fn amount_of_wrong_length_fails() {
    let v: Vec<u8> = vec![1, 2, 3];
    let result: std::result::Result<u64, _> = v.convert();
    assert!(matches!(result, Err(DatabaseError::InvalidLength(3, 8))));
}

#[test]
fn negative_i64_to_u64_fails() {
    let v: i64 = -5;
    let result: std::result::Result<u64, _> = v.convert();
    assert!(matches!(result, Err(DatabaseError::PrecisionLost(_))));
}

#[test]
fn failing_option_reports_the_error() {
    let v: Option<i64> = Some(70_000);
    let result: std::result::Result<Option<u16>, _> = v.convert();
    assert!(matches!(result, Err(DatabaseError::PrecisionLost(_))));
}
