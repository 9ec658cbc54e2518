use vstd::prelude::*;

verus! {

/// The 64-bit keyed SipHash digest of a byte sequence under this crate's
/// fixed embedded key. Deterministic: it depends on the bytes alone, so two
/// hashes of equal byte sequences are equal in every process and on every
/// machine. Kept abstract here; the digest's value on given bytes is fixed
/// by the SipHash construction, not restated in this crate.
pub uninterp spec fn siphash_of(bytes: Seq<u8>) -> u64;

/// Generate a siphash from an arbitrary length array of bytes.
///
/// Relies on siphasher's `sip128::SipHasher` (SipHash-2-4): `new_with_key`,
/// `write` and `finish` form a pure state machine over the key and the bytes
/// written, so with the fixed key the digest is a deterministic function of
/// the bytes alone, and the calls neither panic nor touch anything outside
/// the hasher value.
#[verifier::external_body]
pub fn siphash(bytes: &[u8]) -> (r: u64)
    ensures
        r == siphash_of(bytes@),
{
    let key: [u8; 16] = [
        0xde, 0xad, 0xbe, 0xef, 0xca, 0xfe, 0xba, 0xbe, 0x8b, 0xad, 0xf0, 0x0d, 0x1b, 0xad, 0xb0,
        0x02,
    ];
    let mut hasher = siphasher::sip128::SipHasher::new_with_key(&key);
    std::hash::Hasher::write(&mut hasher, bytes);
    std::hash::Hasher::finish(&hasher)
}

} // verus!
