//! The type-selection table: maps the type suffix of an integer literal to
//! the primitive kind whose non-zero wrapper the literal should become. The
//! vocabulary is closed: exactly the twelve primitive type names are
//! recognized; a missing or unknown suffix is reported as such.

use vstd::prelude::*;

verus! {

/// One of the twelve supported primitive integer types.
#[derive(Clone, Copy, Debug, PartialEq, Eq, Structural)]
pub enum PrimitiveKind {
    I8,
    I16,
    I32,
    I64,
    I128,
    Isize,
    U8,
    U16,
    U32,
    U64,
    U128,
    Usize,
}

/// Why a literal's suffix selects no primitive kind.
#[derive(Clone, Copy, Debug, PartialEq, Eq, Structural)]
pub enum SuffixError {
    /// The literal carries no type suffix at all.
    MissingSuffix,
    /// The literal's suffix is not one of the twelve recognized names.
    UnknownSuffix,
}

/// The suffix table: the primitive kind named by `s`, or the error that
/// describes why `s` names none.
pub open spec fn kind_of_suffix(s: Seq<char>) -> Result<PrimitiveKind, SuffixError> {
    if s.len() == 0 {
        Result::Err(SuffixError::MissingSuffix)
    } else if s.len() == 2 && s[0] == 'i' && s[1] == '8' {
        Result::Ok(PrimitiveKind::I8)
    } else if s.len() == 3 && s[0] == 'i' && s[1] == '1' && s[2] == '6' {
        Result::Ok(PrimitiveKind::I16)
    } else if s.len() == 3 && s[0] == 'i' && s[1] == '3' && s[2] == '2' {
        Result::Ok(PrimitiveKind::I32)
    } else if s.len() == 3 && s[0] == 'i' && s[1] == '6' && s[2] == '4' {
        Result::Ok(PrimitiveKind::I64)
    } else if s.len() == 4 && s[0] == 'i' && s[1] == '1' && s[2] == '2' && s[3] == '8' {
        Result::Ok(PrimitiveKind::I128)
    } else if s.len() == 5 && s[0] == 'i' && s[1] == 's' && s[2] == 'i' && s[3] == 'z'
        && s[4] == 'e' {
        Result::Ok(PrimitiveKind::Isize)
    } else if s.len() == 2 && s[0] == 'u' && s[1] == '8' {
        Result::Ok(PrimitiveKind::U8)
    } else if s.len() == 3 && s[0] == 'u' && s[1] == '1' && s[2] == '6' {
        Result::Ok(PrimitiveKind::U16)
    } else if s.len() == 3 && s[0] == 'u' && s[1] == '3' && s[2] == '2' {
        Result::Ok(PrimitiveKind::U32)
    } else if s.len() == 3 && s[0] == 'u' && s[1] == '6' && s[2] == '4' {
        Result::Ok(PrimitiveKind::U64)
    } else if s.len() == 4 && s[0] == 'u' && s[1] == '1' && s[2] == '2' && s[3] == '8' {
        Result::Ok(PrimitiveKind::U128)
    } else if s.len() == 5 && s[0] == 'u' && s[1] == 's' && s[2] == 'i' && s[3] == 'z'
        && s[4] == 'e' {
        Result::Ok(PrimitiveKind::Usize)
    } else {
        Result::Err(SuffixError::UnknownSuffix)
    }
}

/// Looks the suffix up in the table: returns the primitive kind it names,
/// `MissingSuffix` for an empty suffix, and `UnknownSuffix` for any other
/// string.
pub fn suffix_to_kind(suffix: &str) -> (r: Result<PrimitiveKind, SuffixError>)
    ensures
        r == kind_of_suffix(suffix@),
{
    let n = suffix.unicode_len();
    if n == 0 {
        return Result::Err(SuffixError::MissingSuffix);
    }
    let c0 = suffix.get_char(0);
    if n == 2 {
        let c1 = suffix.get_char(1);
        if c0 == 'i' && c1 == '8' {
            return Result::Ok(PrimitiveKind::I8);
        }
        if c0 == 'u' && c1 == '8' {
            return Result::Ok(PrimitiveKind::U8);
        }
        return Result::Err(SuffixError::UnknownSuffix);
    }
    if n == 3 {
        let c1 = suffix.get_char(1);
        let c2 = suffix.get_char(2);
        if c0 == 'i' && c1 == '1' && c2 == '6' {
            return Result::Ok(PrimitiveKind::I16);
        }
        if c0 == 'i' && c1 == '3' && c2 == '2' {
            return Result::Ok(PrimitiveKind::I32);
        }
        if c0 == 'i' && c1 == '6' && c2 == '4' {
            return Result::Ok(PrimitiveKind::I64);
        }
        if c0 == 'u' && c1 == '1' && c2 == '6' {
            return Result::Ok(PrimitiveKind::U16);
        }
        if c0 == 'u' && c1 == '3' && c2 == '2' {
            return Result::Ok(PrimitiveKind::U32);
        }
        if c0 == 'u' && c1 == '6' && c2 == '4' {
            return Result::Ok(PrimitiveKind::U64);
        }
        return Result::Err(SuffixError::UnknownSuffix);
    }
    if n == 4 {
        let c1 = suffix.get_char(1);
        let c2 = suffix.get_char(2);
        let c3 = suffix.get_char(3);
        if c0 == 'i' && c1 == '1' && c2 == '2' && c3 == '8' {
            return Result::Ok(PrimitiveKind::I128);
        }
        if c0 == 'u' && c1 == '1' && c2 == '2' && c3 == '8' {
            return Result::Ok(PrimitiveKind::U128);
        }
        return Result::Err(SuffixError::UnknownSuffix);
    }
    if n == 5 {
        let c1 = suffix.get_char(1);
        let c2 = suffix.get_char(2);
        let c3 = suffix.get_char(3);
        let c4 = suffix.get_char(4);
        if c1 == 's' && c2 == 'i' && c3 == 'z' && c4 == 'e' {
            if c0 == 'i' {
                return Result::Ok(PrimitiveKind::Isize);
            }
            if c0 == 'u' {
                return Result::Ok(PrimitiveKind::Usize);
            }
        }
        return Result::Err(SuffixError::UnknownSuffix);
    }
    Result::Err(SuffixError::UnknownSuffix)
}

} // verus!
