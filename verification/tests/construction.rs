use nonzero::wrapper::{
    NonZeroI128, NonZeroI16, NonZeroI32, NonZeroI64, NonZeroI8, NonZeroIsize, NonZeroU128,
    NonZeroU16, NonZeroU32, NonZeroU64, NonZeroU8, NonZeroUsize,
};
use nonzero::{nonzero, try_nonzero, NonZero};

#[test]
fn unsigned_pointer_width_one() {
    let w: NonZeroUsize = nonzero(&1usize);
    assert_eq!(w.get(), 1usize);
}

#[test]
fn signed_eight_bit_minus_one() {
    let w: NonZeroI8 = nonzero(&-1i8);
    assert_eq!(w.get(), -1i8);
}

#[test]
fn constant_expression_evaluates_before_check() {
    const BASE: usize = 20;
    let w: NonZeroUsize = nonzero(&(BASE - 19));
    assert_eq!(w.get(), 1usize);
}

#[test]
fn unsigned_roundtrip_small_values() {
    assert_eq!(nonzero::<NonZeroU8>(&1u8).get(), 1u8);
    assert_eq!(nonzero::<NonZeroU16>(&1u16).get(), 1u16);
    assert_eq!(nonzero::<NonZeroU32>(&1u32).get(), 1u32);
    assert_eq!(nonzero::<NonZeroU64>(&1u64).get(), 1u64);
    assert_eq!(nonzero::<NonZeroU128>(&1u128).get(), 1u128);
    assert_eq!(nonzero::<NonZeroUsize>(&1usize).get(), 1usize);
}

#[test]
fn signed_roundtrip_small_values() {
    assert_eq!(nonzero::<NonZeroI8>(&1i8).get(), 1i8);
    assert_eq!(nonzero::<NonZeroI16>(&-1i16).get(), -1i16);
    assert_eq!(nonzero::<NonZeroI32>(&1i32).get(), 1i32);
    assert_eq!(nonzero::<NonZeroI64>(&-1i64).get(), -1i64);
    assert_eq!(nonzero::<NonZeroI128>(&1i128).get(), 1i128);
    assert_eq!(nonzero::<NonZeroIsize>(&-1isize).get(), -1isize);
}

#[test]
fn unsigned_maximum_values_roundtrip() {
    assert_eq!(nonzero::<NonZeroU8>(&u8::MAX).get(), u8::MAX);
    assert_eq!(nonzero::<NonZeroU16>(&u16::MAX).get(), u16::MAX);
    assert_eq!(nonzero::<NonZeroU32>(&u32::MAX).get(), u32::MAX);
    assert_eq!(nonzero::<NonZeroU64>(&u64::MAX).get(), u64::MAX);
    assert_eq!(nonzero::<NonZeroU128>(&u128::MAX).get(), u128::MAX);
    assert_eq!(nonzero::<NonZeroUsize>(&usize::MAX).get(), usize::MAX);
}

#[test]
fn signed_extreme_values_roundtrip() {
    assert_eq!(nonzero::<NonZeroI8>(&i8::MIN).get(), i8::MIN);
    assert_eq!(nonzero::<NonZeroI8>(&i8::MAX).get(), i8::MAX);
    assert_eq!(nonzero::<NonZeroI16>(&i16::MIN).get(), i16::MIN);
    assert_eq!(nonzero::<NonZeroI16>(&i16::MAX).get(), i16::MAX);
    assert_eq!(nonzero::<NonZeroI32>(&i32::MIN).get(), i32::MIN);
    assert_eq!(nonzero::<NonZeroI32>(&i32::MAX).get(), i32::MAX);
    assert_eq!(nonzero::<NonZeroI64>(&i64::MIN).get(), i64::MIN);
    assert_eq!(nonzero::<NonZeroI64>(&i64::MAX).get(), i64::MAX);
    assert_eq!(nonzero::<NonZeroI128>(&i128::MIN).get(), i128::MIN);
    assert_eq!(nonzero::<NonZeroI128>(&i128::MAX).get(), i128::MAX);
    assert_eq!(nonzero::<NonZeroIsize>(&isize::MIN).get(), isize::MIN);
    assert_eq!(nonzero::<NonZeroIsize>(&isize::MAX).get(), isize::MAX);
}

#[test]
fn checked_construction_rejects_zero_for_every_type() {
    assert!(try_nonzero::<NonZeroU8>(&0u8).is_none());
    assert!(try_nonzero::<NonZeroU16>(&0u16).is_none());
    assert!(try_nonzero::<NonZeroU32>(&0u32).is_none());
    assert!(try_nonzero::<NonZeroU64>(&0u64).is_none());
    assert!(try_nonzero::<NonZeroU128>(&0u128).is_none());
    assert!(try_nonzero::<NonZeroUsize>(&0usize).is_none());
    assert!(try_nonzero::<NonZeroI8>(&0i8).is_none());
    assert!(try_nonzero::<NonZeroI16>(&0i16).is_none());
    assert!(try_nonzero::<NonZeroI32>(&0i32).is_none());
    assert!(try_nonzero::<NonZeroI64>(&0i64).is_none());
    assert!(try_nonzero::<NonZeroI128>(&0i128).is_none());
    assert!(try_nonzero::<NonZeroIsize>(&0isize).is_none());
}

#[test]
fn checked_construction_accepts_nonzero_for_every_type() {
    assert_eq!(try_nonzero::<NonZeroU8>(&7u8).map(|w| w.get()), Some(7u8));
    assert_eq!(try_nonzero::<NonZeroU16>(&7u16).map(|w| w.get()), Some(7u16));
    assert_eq!(try_nonzero::<NonZeroU32>(&7u32).map(|w| w.get()), Some(7u32));
    assert_eq!(try_nonzero::<NonZeroU64>(&7u64).map(|w| w.get()), Some(7u64));
    assert_eq!(try_nonzero::<NonZeroU128>(&7u128).map(|w| w.get()), Some(7u128));
    assert_eq!(try_nonzero::<NonZeroUsize>(&7usize).map(|w| w.get()), Some(7usize));
    assert_eq!(try_nonzero::<NonZeroI8>(&-7i8).map(|w| w.get()), Some(-7i8));
    assert_eq!(try_nonzero::<NonZeroI16>(&-7i16).map(|w| w.get()), Some(-7i16));
    assert_eq!(try_nonzero::<NonZeroI32>(&-7i32).map(|w| w.get()), Some(-7i32));
    assert_eq!(try_nonzero::<NonZeroI64>(&-7i64).map(|w| w.get()), Some(-7i64));
    assert_eq!(try_nonzero::<NonZeroI128>(&-7i128).map(|w| w.get()), Some(-7i128));
    assert_eq!(try_nonzero::<NonZeroIsize>(&-7isize).map(|w| w.get()), Some(-7isize));
}
