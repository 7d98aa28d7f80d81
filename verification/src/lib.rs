//! A compact encoding of `Option<u64>` in a single `u64`.
//!
//! One raw value, `u64::MAX`, is set aside to mean "no value"; every other
//! raw value stands for itself. The optional integer therefore fits in eight
//! bytes, at the price of the largest `u64`, which cannot be stored.

pub mod int_sentinel;
