//! The leaf capability providers: each produces the canonical zero value,
//! whose raw bytes are entirely zero.

use fromzeros::zero::{zeroed, FromZeros};

#[test]
fn unit_zero() {
    let v: () = zeroed();
    assert_eq!(v, ());
}

#[test]
fn bool_zero_is_false() {
    assert_eq!(bool::zeroed(), false);
    assert_eq!(zeroed::<bool>(), false);
}

#[test]
fn char_zero_is_nul() {
    assert_eq!(char::zeroed(), '\0');
    assert_eq!(char::zeroed() as u32, 0);
}

#[test]
fn unsigned_zeros() {
    assert_eq!(u8::zeroed(), 0);
    assert_eq!(u16::zeroed(), 0);
    assert_eq!(u32::zeroed(), 0);
    assert_eq!(u64::zeroed(), 0);
    assert_eq!(u128::zeroed(), 0);
    assert_eq!(usize::zeroed(), 0);
}

#[test]
fn signed_zeros() {
    assert_eq!(i8::zeroed(), 0);
    assert_eq!(i16::zeroed(), 0);
    assert_eq!(i32::zeroed(), 0);
    assert_eq!(i64::zeroed(), 0);
    assert_eq!(i128::zeroed(), 0);
    assert_eq!(isize::zeroed(), 0);
}

#[test]
fn zero_value_bytes_are_all_zero() {
    assert_eq!(u64::zeroed().to_le_bytes(), [0u8; 8]);
    assert_eq!(i128::zeroed().to_le_bytes(), [0u8; 16]);
    assert_eq!(u32::zeroed().to_be_bytes(), [0u8; 4]);
    assert_eq!((char::zeroed() as u32).to_le_bytes(), [0u8; 4]);
    assert_eq!((bool::zeroed() as u8).to_le_bytes(), [0u8; 1]);
}
