//! Order-preserving plaintext encoding for an order-revealing encryption
//! (ORE) scheme that works on `u64` plaintexts.
//!
//! An ORE scheme lets two ciphertexts be compared so that they reveal the
//! ordering relationship of their plaintexts. When the source values are not
//! already `u64`, they must first be mapped into the `u64` domain in a way
//! that preserves their native ordering. This crate provides that mapping
//! for booleans, fixed-width unsigned integers and IEEE-754 binary64 bit
//! patterns, together with the closed `[min, max]` interval arithmetic that
//! turns a comparison operator into a range over the encoded domain, and a
//! keyed hashing utility used elsewhere in the surrounding pipeline for key
//! derivation.
//!
//! The floating-point mapping is reversible for values that came from a
//! 64-bit float, with the single exception that negative zero comes back as
//! positive zero. NaN bit patterns are mapped too, but their relative order
//! is not meaningful; callers must discard NaNs before relying on the order
//! of a collection of encoded values.

mod encode;
mod ranges;
mod siphash;

pub use encode::{
    canonical_bits, decode_bits, encode_bits, encoded_seq, f64_bits_eq, f64_bits_lt,
    f64_magnitude_bits, is_finite_bits, is_nan_bits, lemma_order_preserved, lemma_round_trip,
    lemma_infinities_are_extreme, lemma_sort_equivalence, sorted_by_f64_bits, sorted_u64_seq, OrePlaintext, OrePlaintextOps,
    F64_INF_MAGNITUDE, F64_SIGN_BIT,
};
pub use ranges::{encode_between, encode_eq, encode_gt, encode_gte, encode_lt, encode_lte, OreRange};
pub use siphash::{siphash, siphash_of};
