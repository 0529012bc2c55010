//! Checked construction of non-zero integer values.
//!
//! For each of the twelve primitive integer types (signed and unsigned,
//! widths 8 through 128 bits, plus the pointer-sized pair) the crate offers
//! a wrapper type whose every instance is proved to differ from the
//! primitive's all-zero byte pattern. Construction validates the candidate
//! value by comparing its little-endian byte representation against the
//! zero pattern of the same width; only a value whose bytes differ from
//! that pattern can become a wrapper.

pub mod bytes;
pub mod primitive;
pub mod suffix;
pub mod wrapper;

pub use bytes::slice_eq;
pub use primitive::is_default;
pub use wrapper::{nonzero, try_nonzero, NonZero};
