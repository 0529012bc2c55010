//! The non-zero wrapper types and the validate-and-reinterpret engine:
//! one wrapper per supported primitive type, an invariant that a wrapper's
//! bytes never equal the zero pattern of its primitive, and the validating
//! constructors that are the only way to obtain a wrapper.

use vstd::prelude::*;

use crate::bytes::seq_zero;
use crate::primitive::{bytes_of, is_default, lemma_bytes_zero_iff, ZeroPattern};

verus! {

/// A wrapper type in one-to-one correspondence with a primitive integer
/// type, whose well-formed instances never carry the primitive's all-zero
/// byte pattern.
pub trait NonZero: Sized {
    /// The primitive type the wrapper corresponds to.
    type Primitive: ZeroPattern;

    /// The primitive value the wrapper carries: the conversion is a
    /// bit-identity mapping, so this is the wrapper's own bit pattern read
    /// as the primitive type.
    spec fn wrapped(self) -> Self::Primitive;

    /// The wrapper's invariant.
    spec fn wf(self) -> bool;

    /// A wrapper is well-formed exactly when the value it carries is not
    /// the primitive's zero.
    proof fn lemma_wf(self)
        ensures
            self.wf() <==> !self.wrapped().is_zero(),
    ;

    /// Reinterprets a primitive value, already known to differ from the
    /// zero pattern, as the wrapper type, preserving every bit.
    fn from_primitive(src: &Self::Primitive) -> (r: Self)
        requires
            !(*src).is_zero(),
        ensures
            r.wrapped() == *src,
    ;

    /// Reads the wrapper back as its primitive value.
    fn get(&self) -> (r: Self::Primitive)
        ensures
            r == self.wrapped(),
    ;
}

/// Validates that `src` is not its type's zero pattern and reinterprets it
/// as the corresponding non-zero wrapper. The result is well-formed and its
/// bytes equal the input's bytes exactly.
///
/// A zero argument is excluded by contract: the calling context must have
/// established, before the program runs, that `src` is not zero.
pub fn nonzero<T: NonZero>(src: &T::Primitive) -> (r: T)
    requires
        !(*src).is_zero(),
    ensures
        r.wrapped() == *src,
        r.wf(),
        bytes_of(r.wrapped()) == bytes_of(*src),
{
    let r = T::from_primitive(src);
    proof {
        r.lemma_wf();
    }
    r
}

/// Runs the byte-level zero check on `src` and constructs the wrapper only
/// when the check passes: the result is `Some` exactly when `src` is not
/// zero, and the wrapper then carries `src` unchanged.
pub fn try_nonzero<T: NonZero>(src: &T::Primitive) -> (r: Option<T>)
    ensures
        r is Some <==> !(*src).is_zero(),
        r matches Some(w) ==> w.wrapped() == *src && w.wf(),
{
    if is_default(src) {
        None
    } else {
        Some(nonzero(src))
    }
}

/// The global invariant: a well-formed wrapper's bytes, read as its
/// primitive type, never equal the all-zero pattern of that type.
pub proof fn lemma_wrapper_never_zero_pattern<T: NonZero>(w: T)
    requires
        w.wf(),
    ensures
        bytes_of(w.wrapped()) != seq_zero(<T::Primitive as ZeroPattern>::width()),
{
    w.lemma_wf();
    lemma_bytes_zero_iff(w.wrapped());
}

#[derive(Clone, Copy, PartialEq, Eq, Structural)]
pub struct NonZeroU8 {
    value: u8,
}

impl NonZero for NonZeroU8 {
    type Primitive = u8;

    closed spec fn wrapped(self) -> u8 {
        self.value
    }

    closed spec fn wf(self) -> bool {
        self.value != 0
    }

    proof fn lemma_wf(self) {
    }

    fn from_primitive(src: &u8) -> (r: Self) {
        NonZeroU8 { value: *src }
    }

    fn get(&self) -> (r: u8) {
        self.value
    }
}

#[derive(Clone, Copy, PartialEq, Eq, Structural)]
pub struct NonZeroU16 {
    value: u16,
}

impl NonZero for NonZeroU16 {
    type Primitive = u16;

    closed spec fn wrapped(self) -> u16 {
        self.value
    }

    closed spec fn wf(self) -> bool {
        self.value != 0
    }

    proof fn lemma_wf(self) {
    }

    fn from_primitive(src: &u16) -> (r: Self) {
        NonZeroU16 { value: *src }
    }

    fn get(&self) -> (r: u16) {
        self.value
    }
}

#[derive(Clone, Copy, PartialEq, Eq, Structural)]
pub struct NonZeroU32 {
    value: u32,
}

impl NonZero for NonZeroU32 {
    type Primitive = u32;

    closed spec fn wrapped(self) -> u32 {
        self.value
    }

    closed spec fn wf(self) -> bool {
        self.value != 0
    }

    proof fn lemma_wf(self) {
    }

    fn from_primitive(src: &u32) -> (r: Self) {
        NonZeroU32 { value: *src }
    }

    fn get(&self) -> (r: u32) {
        self.value
    }
}

#[derive(Clone, Copy, PartialEq, Eq, Structural)]
pub struct NonZeroU64 {
    value: u64,
}

impl NonZero for NonZeroU64 {
    type Primitive = u64;

    closed spec fn wrapped(self) -> u64 {
        self.value
    }

    closed spec fn wf(self) -> bool {
        self.value != 0
    }

    proof fn lemma_wf(self) {
    }

    fn from_primitive(src: &u64) -> (r: Self) {
        NonZeroU64 { value: *src }
    }

    fn get(&self) -> (r: u64) {
        self.value
    }
}

#[derive(Clone, Copy, PartialEq, Eq, Structural)]
pub struct NonZeroU128 {
    value: u128,
}

impl NonZero for NonZeroU128 {
    type Primitive = u128;

    closed spec fn wrapped(self) -> u128 {
        self.value
    }

    closed spec fn wf(self) -> bool {
        self.value != 0
    }

    proof fn lemma_wf(self) {
    }

    fn from_primitive(src: &u128) -> (r: Self) {
        NonZeroU128 { value: *src }
    }

    fn get(&self) -> (r: u128) {
        self.value
    }
}

#[derive(Clone, Copy, PartialEq, Eq, Structural)]
pub struct NonZeroUsize {
    value: usize,
}

impl NonZero for NonZeroUsize {
    type Primitive = usize;

    closed spec fn wrapped(self) -> usize {
        self.value
    }

    closed spec fn wf(self) -> bool {
        self.value != 0
    }

    proof fn lemma_wf(self) {
    }

    fn from_primitive(src: &usize) -> (r: Self) {
        NonZeroUsize { value: *src }
    }

    fn get(&self) -> (r: usize) {
        self.value
    }
}

#[derive(Clone, Copy, PartialEq, Eq, Structural)]
pub struct NonZeroI8 {
    value: i8,
}

impl NonZero for NonZeroI8 {
    type Primitive = i8;

    closed spec fn wrapped(self) -> i8 {
        self.value
    }

    closed spec fn wf(self) -> bool {
        self.value != 0
    }

    proof fn lemma_wf(self) {
    }

    fn from_primitive(src: &i8) -> (r: Self) {
        NonZeroI8 { value: *src }
    }

    fn get(&self) -> (r: i8) {
        self.value
    }
}

#[derive(Clone, Copy, PartialEq, Eq, Structural)]
pub struct NonZeroI16 {
    value: i16,
}

impl NonZero for NonZeroI16 {
    type Primitive = i16;

    closed spec fn wrapped(self) -> i16 {
        self.value
    }

    closed spec fn wf(self) -> bool {
        self.value != 0
    }

    proof fn lemma_wf(self) {
    }

    fn from_primitive(src: &i16) -> (r: Self) {
        NonZeroI16 { value: *src }
    }

    fn get(&self) -> (r: i16) {
        self.value
    }
}

#[derive(Clone, Copy, PartialEq, Eq, Structural)]
pub struct NonZeroI32 {
    value: i32,
}

impl NonZero for NonZeroI32 {
    type Primitive = i32;

    closed spec fn wrapped(self) -> i32 {
        self.value
    }

    closed spec fn wf(self) -> bool {
        self.value != 0
    }

    proof fn lemma_wf(self) {
    }

    fn from_primitive(src: &i32) -> (r: Self) {
        NonZeroI32 { value: *src }
    }

    fn get(&self) -> (r: i32) {
        self.value
    }
}

#[derive(Clone, Copy, PartialEq, Eq, Structural)]
pub struct NonZeroI64 {
    value: i64,
}

impl NonZero for NonZeroI64 {
    type Primitive = i64;

    closed spec fn wrapped(self) -> i64 {
        self.value
    }

    closed spec fn wf(self) -> bool {
        self.value != 0
    }

    proof fn lemma_wf(self) {
    }

    fn from_primitive(src: &i64) -> (r: Self) {
        NonZeroI64 { value: *src }
    }

    fn get(&self) -> (r: i64) {
        self.value
    }
}

#[derive(Clone, Copy, PartialEq, Eq, Structural)]
pub struct NonZeroI128 {
    value: i128,
}

impl NonZero for NonZeroI128 {
    type Primitive = i128;

    closed spec fn wrapped(self) -> i128 {
        self.value
    }

    closed spec fn wf(self) -> bool {
        self.value != 0
    }

    proof fn lemma_wf(self) {
    }

    fn from_primitive(src: &i128) -> (r: Self) {
        NonZeroI128 { value: *src }
    }

    fn get(&self) -> (r: i128) {
        self.value
    }
}

#[derive(Clone, Copy, PartialEq, Eq, Structural)]
pub struct NonZeroIsize {
    value: isize,
}

impl NonZero for NonZeroIsize {
    type Primitive = isize;

    closed spec fn wrapped(self) -> isize {
        self.value
    }

    closed spec fn wf(self) -> bool {
        self.value != 0
    }

    proof fn lemma_wf(self) {
    }

    fn from_primitive(src: &isize) -> (r: Self) {
        NonZeroIsize { value: *src }
    }

    fn get(&self) -> (r: isize) {
        self.value
    }
}

} // verus!
