//! Range-validated construction of typed color values.
//!
//! The crate turns an untyped, ordered list of numeric components plus a
//! color-space tag into a strongly typed color value, or fails with a
//! precise diagnostic saying which component is invalid and why.
//!
//! Every numeric component is an IEEE-754 binary64 value handled throughout
//! as its raw bit pattern (`u64`); the [`bits`] module defines the ordering
//! those bit patterns denote and proves the comparison routines against it.

pub mod bits;
pub mod color;
pub mod convert;
