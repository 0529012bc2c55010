use nonzero::suffix::{suffix_to_kind, PrimitiveKind, SuffixError};

#[test]
fn every_recognized_suffix_selects_its_kind() {
    assert_eq!(suffix_to_kind("i8"), Ok(PrimitiveKind::I8));
    assert_eq!(suffix_to_kind("i16"), Ok(PrimitiveKind::I16));
    assert_eq!(suffix_to_kind("i32"), Ok(PrimitiveKind::I32));
    assert_eq!(suffix_to_kind("i64"), Ok(PrimitiveKind::I64));
    assert_eq!(suffix_to_kind("i128"), Ok(PrimitiveKind::I128));
    assert_eq!(suffix_to_kind("isize"), Ok(PrimitiveKind::Isize));
    assert_eq!(suffix_to_kind("u8"), Ok(PrimitiveKind::U8));
    assert_eq!(suffix_to_kind("u16"), Ok(PrimitiveKind::U16));
    assert_eq!(suffix_to_kind("u32"), Ok(PrimitiveKind::U32));
    assert_eq!(suffix_to_kind("u64"), Ok(PrimitiveKind::U64));
    assert_eq!(suffix_to_kind("u128"), Ok(PrimitiveKind::U128));
    assert_eq!(suffix_to_kind("usize"), Ok(PrimitiveKind::Usize));
}

#[test]
fn empty_suffix_is_reported_as_missing() {
    assert_eq!(suffix_to_kind(""), Err(SuffixError::MissingSuffix));
}

#[test]
fn unrecognized_suffixes_are_reported_as_unknown() {
    assert_eq!(suffix_to_kind("f32"), Err(SuffixError::UnknownSuffix));
    assert_eq!(suffix_to_kind("f64"), Err(SuffixError::UnknownSuffix));
    assert_eq!(suffix_to_kind("i"), Err(SuffixError::UnknownSuffix));
    assert_eq!(suffix_to_kind("u"), Err(SuffixError::UnknownSuffix));
    assert_eq!(suffix_to_kind("i256"), Err(SuffixError::UnknownSuffix));
    assert_eq!(suffix_to_kind("usize8"), Err(SuffixError::UnknownSuffix));
    assert_eq!(suffix_to_kind("Usize"), Err(SuffixError::UnknownSuffix));
    assert_eq!(suffix_to_kind("int"), Err(SuffixError::UnknownSuffix));
}
