//! The zero-pattern registry and the byte-comparison engine: each supported
//! primitive integer type knows its width, its little-endian byte
//! representation (two's complement for the signed types), and its canonical
//! zero value, and `is_default` decides whether a value carries the all-zero
//! byte pattern of its type.

use vstd::prelude::*;

use crate::bytes::{
    le_byte_encode, le_bytes, lemma_le_bytes_len, lemma_le_bytes_zero_iff, lemma_pow256_widths,
    pow256, seq_zero, slice_eq,
};

verus! {

/// The `n`-byte two's-complement representation of the integer `v`,
/// as a natural number.
pub open spec fn twos(v: int, n: nat) -> nat {
    if v >= 0 {
        v as nat
    } else {
        (v + pow256(n)) as nat
    }
}

/// A primitive integer type with a canonical all-zero byte pattern.
///
/// The supported set is closed: exactly the twelve fixed-width and
/// pointer-width signed and unsigned integer types implement this trait.
pub trait ZeroPattern: Sized {
    /// The number of bytes in the type's representation.
    spec fn width() -> nat;

    /// The value's bytes read back as a little-endian natural number
    /// (the two's-complement value for the signed types).
    spec fn rep(self) -> nat;

    /// Whether the value is the type's zero.
    spec fn is_zero(self) -> bool;

    /// The representation is in range of the width, the width is positive,
    /// and the representation is zero exactly on the zero value.
    proof fn lemma_rep(self)
        ensures
            self.rep() < pow256(Self::width()),
            (self.rep() == 0) <==> self.is_zero(),
            Self::width() > 0,
    ;

    /// The little-endian byte view of the value.
    fn as_bytes(&self) -> (r: Vec<u8>)
        ensures
            r@ == le_bytes(self.rep(), Self::width()),
    ;

    /// The type's canonical zero value, whose bytes are the zero pattern.
    fn zero() -> (r: Self)
        ensures
            r.is_zero(),
    ;
}

/// The little-endian byte representation of a primitive value.
pub open spec fn bytes_of<T: ZeroPattern>(x: T) -> Seq<u8> {
    le_bytes(x.rep(), T::width())
}

/// A value's bytes have the type's width, and they are the all-zero
/// pattern exactly when the value is zero.
pub proof fn lemma_bytes_zero_iff<T: ZeroPattern>(x: T)
    ensures
        bytes_of(x).len() == T::width(),
        (bytes_of(x) == seq_zero(T::width())) <==> x.is_zero(),
{
    x.lemma_rep();
    lemma_le_bytes_len(x.rep(), T::width());
    lemma_le_bytes_zero_iff(x.rep(), T::width());
}

/// Decides whether `src` carries the all-zero byte pattern of its type, by
/// comparing its byte view against the byte view of the type's zero value.
pub fn is_default<T: ZeroPattern>(src: &T) -> (r: bool)
    ensures
        r == src.is_zero(),
{
    let src_bytes = src.as_bytes();
    let zero = T::zero();
    let zero_bytes = zero.as_bytes();
    proof {
        lemma_bytes_zero_iff(*src);
        lemma_bytes_zero_iff(zero);
    }
    slice_eq(src_bytes.as_slice(), zero_bytes.as_slice())
}

impl ZeroPattern for u8 {
    open spec fn width() -> nat {
        1
    }

    open spec fn rep(self) -> nat {
        self as nat
    }

    open spec fn is_zero(self) -> bool {
        self == 0
    }

    proof fn lemma_rep(self) {
        lemma_pow256_widths();
    }

    fn as_bytes(&self) -> (r: Vec<u8>) {
        proof {
            lemma_pow256_widths();
        }
        le_byte_encode(*self as u128, 1)
    }

    fn zero() -> (r: Self) {
        0
    }
}

impl ZeroPattern for i8 {
    open spec fn width() -> nat {
        1
    }

    open spec fn rep(self) -> nat {
        twos(self as int, 1)
    }

    open spec fn is_zero(self) -> bool {
        self == 0
    }

    proof fn lemma_rep(self) {
        lemma_pow256_widths();
    }

    fn as_bytes(&self) -> (r: Vec<u8>) {
        let x = *self;
        let u: u128 = if x >= 0 {
            x as u128
        } else {
            ((x as i32) + 0x100) as u128
        };
        proof {
            lemma_pow256_widths();
        }
        le_byte_encode(u, 1)
    }

    fn zero() -> (r: Self) {
        0
    }
}

impl ZeroPattern for u16 {
    open spec fn width() -> nat {
        2
    }

    open spec fn rep(self) -> nat {
        self as nat
    }

    open spec fn is_zero(self) -> bool {
        self == 0
    }

    proof fn lemma_rep(self) {
        lemma_pow256_widths();
    }

    fn as_bytes(&self) -> (r: Vec<u8>) {
        proof {
            lemma_pow256_widths();
        }
        le_byte_encode(*self as u128, 2)
    }

    fn zero() -> (r: Self) {
        0
    }
}

impl ZeroPattern for u32 {
    open spec fn width() -> nat {
        4
    }

    open spec fn rep(self) -> nat {
        self as nat
    }

    open spec fn is_zero(self) -> bool {
        self == 0
    }

    proof fn lemma_rep(self) {
        lemma_pow256_widths();
    }

    fn as_bytes(&self) -> (r: Vec<u8>) {
        proof {
            lemma_pow256_widths();
        }
        le_byte_encode(*self as u128, 4)
    }

    fn zero() -> (r: Self) {
        0
    }
}

impl ZeroPattern for u64 {
    open spec fn width() -> nat {
        8
    }

    open spec fn rep(self) -> nat {
        self as nat
    }

    open spec fn is_zero(self) -> bool {
        self == 0
    }

    proof fn lemma_rep(self) {
        lemma_pow256_widths();
    }

    fn as_bytes(&self) -> (r: Vec<u8>) {
        proof {
            lemma_pow256_widths();
        }
        le_byte_encode(*self as u128, 8)
    }

    fn zero() -> (r: Self) {
        0
    }
}

impl ZeroPattern for u128 {
    open spec fn width() -> nat {
        16
    }

    open spec fn rep(self) -> nat {
        self as nat
    }

    open spec fn is_zero(self) -> bool {
        self == 0
    }

    proof fn lemma_rep(self) {
        lemma_pow256_widths();
    }

    fn as_bytes(&self) -> (r: Vec<u8>) {
        proof {
            lemma_pow256_widths();
        }
        le_byte_encode(*self, 16)
    }

    fn zero() -> (r: Self) {
        0
    }
}

impl ZeroPattern for i16 {
    open spec fn width() -> nat {
        2
    }

    open spec fn rep(self) -> nat {
        twos(self as int, 2)
    }

    open spec fn is_zero(self) -> bool {
        self == 0
    }

    proof fn lemma_rep(self) {
        lemma_pow256_widths();
    }

    fn as_bytes(&self) -> (r: Vec<u8>) {
        let x = *self;
        let u: u128 = if x >= 0 {
            x as u128
        } else {
            ((x as i32) + 0x1_0000) as u128
        };
        proof {
            lemma_pow256_widths();
        }
        le_byte_encode(u, 2)
    }

    fn zero() -> (r: Self) {
        0
    }
}

impl ZeroPattern for i32 {
    open spec fn width() -> nat {
        4
    }

    open spec fn rep(self) -> nat {
        twos(self as int, 4)
    }

    open spec fn is_zero(self) -> bool {
        self == 0
    }

    proof fn lemma_rep(self) {
        lemma_pow256_widths();
    }

    fn as_bytes(&self) -> (r: Vec<u8>) {
        let x = *self;
        let u: u128 = if x >= 0 {
            x as u128
        } else {
            ((x as i64) + 0x1_0000_0000) as u128
        };
        proof {
            lemma_pow256_widths();
        }
        le_byte_encode(u, 4)
    }

    fn zero() -> (r: Self) {
        0
    }
}

impl ZeroPattern for i64 {
    open spec fn width() -> nat {
        8
    }

    open spec fn rep(self) -> nat {
        twos(self as int, 8)
    }

    open spec fn is_zero(self) -> bool {
        self == 0
    }

    proof fn lemma_rep(self) {
        lemma_pow256_widths();
    }

    fn as_bytes(&self) -> (r: Vec<u8>) {
        let x = *self;
        let u: u128 = if x >= 0 {
            x as u128
        } else {
            ((x as i128) + 0x1_0000_0000_0000_0000) as u128
        };
        proof {
            lemma_pow256_widths();
        }
        le_byte_encode(u, 8)
    }

    fn zero() -> (r: Self) {
        0
    }
}

impl ZeroPattern for i128 {
    open spec fn width() -> nat {
        16
    }

    open spec fn rep(self) -> nat {
        twos(self as int, 16)
    }

    open spec fn is_zero(self) -> bool {
        self == 0
    }

    proof fn lemma_rep(self) {
        lemma_pow256_widths();
    }

    fn as_bytes(&self) -> (r: Vec<u8>) {
        let x = *self;
        let u: u128 = if x >= 0 {
            x as u128
        } else {
            u128::MAX - ((-(x + 1)) as u128)
        };
        proof {
            lemma_pow256_widths();
        }
        le_byte_encode(u, 16)
    }

    fn zero() -> (r: Self) {
        0
    }
}

impl ZeroPattern for usize {
    open spec fn width() -> nat {
        (usize::BITS / 8) as nat
    }

    open spec fn rep(self) -> nat {
        self as nat
    }

    open spec fn is_zero(self) -> bool {
        self == 0
    }

    proof fn lemma_rep(self) {
        lemma_pow256_widths();
    }

    fn as_bytes(&self) -> (r: Vec<u8>) {
        let count: usize = (usize::BITS / 8) as usize;
        proof {
            lemma_pow256_widths();
        }
        le_byte_encode(*self as u128, count)
    }

    fn zero() -> (r: Self) {
        0
    }
}

impl ZeroPattern for isize {
    open spec fn width() -> nat {
        (usize::BITS / 8) as nat
    }

    open spec fn rep(self) -> nat {
        twos(self as int, (usize::BITS / 8) as nat)
    }

    open spec fn is_zero(self) -> bool {
        self == 0
    }

    proof fn lemma_rep(self) {
        lemma_pow256_widths();
    }

    fn as_bytes(&self) -> (r: Vec<u8>) {
        let count: usize = (usize::BITS / 8) as usize;
        let x = *self;
        let u: u128 = if x >= 0 {
            x as u128
        } else if usize::BITS == 64 {
            ((x as i128) + 0x1_0000_0000_0000_0000) as u128
        } else {
            ((x as i128) + 0x1_0000_0000) as u128
        };
        proof {
            lemma_pow256_widths();
        }
        le_byte_encode(u, count)
    }

    fn zero() -> (r: Self) {
        0
    }
}

} // verus!
