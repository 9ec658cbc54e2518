use vstd::prelude::*;

verus! {

/// The sign bit of an IEEE-754 binary64 bit pattern. It is also the bit
/// pattern of negative zero, whose magnitude field is all zero.
pub const F64_SIGN_BIT: u64 = 0x8000_0000_0000_0000;

/// The magnitude field of an infinity: exponent all ones, mantissa zero.
/// A magnitude above this value encodes NaN; below it, a finite value.
pub const F64_INF_MAGNITUDE: u64 = 0x7ff0_0000_0000_0000;

/// Domain operations that a plaintext integer type offers to the range
/// encoder: the domain's minimum and maximum, and a successor and a
/// predecessor that saturate at those extremes instead of wrapping.
pub trait OrePlaintextOps: Sized + Copy {
    /// The value as a mathematical integer.
    spec fn to_int(self) -> int;

    /// The smallest integer of the domain.
    spec fn domain_min() -> int;

    /// The largest integer of the domain.
    spec fn domain_max() -> int;

    /// Every value of the type lies between the domain's extremes.
    proof fn lemma_in_domain(self)
        ensures
            Self::domain_min() <= self.to_int() <= Self::domain_max(),
    ;

    fn minimum() -> (r: Self)
        ensures
            r.to_int() == Self::domain_min(),
    ;

    fn maximum() -> (r: Self)
        ensures
            r.to_int() == Self::domain_max(),
    ;

    /// The next value up, saturating at the domain maximum.
    fn successor(self) -> (r: Self)
        ensures
            r.to_int() == if self.to_int() == Self::domain_max() {
                Self::domain_max()
            } else {
                self.to_int() + 1
            },
    ;

    /// The next value down, saturating at the domain minimum.
    fn predecessor(self) -> (r: Self)
        ensures
            r.to_int() == if self.to_int() == Self::domain_min() {
                Self::domain_min()
            } else {
                self.to_int() - 1
            },
    ;
}

impl OrePlaintextOps for u64 {
    open spec fn to_int(self) -> int {
        self as int
    }

    open spec fn domain_min() -> int {
        0
    }

    open spec fn domain_max() -> int {
        u64::MAX as int
    }

    proof fn lemma_in_domain(self) {
    }

    fn minimum() -> (r: Self) {
        0
    }

    fn maximum() -> (r: Self) {
        u64::MAX
    }

    fn successor(self) -> (r: Self) {
        if self == u64::MAX {
            self
        } else {
            self + 1
        }
    }

    fn predecessor(self) -> (r: Self) {
        if self == 0 {
            self
        } else {
            self - 1
        }
    }
}

impl OrePlaintextOps for u32 {
    open spec fn to_int(self) -> int {
        self as int
    }

    open spec fn domain_min() -> int {
        0
    }

    open spec fn domain_max() -> int {
        u32::MAX as int
    }

    proof fn lemma_in_domain(self) {
    }

    fn minimum() -> (r: Self) {
        0
    }

    fn maximum() -> (r: Self) {
        u32::MAX
    }

    fn successor(self) -> (r: Self) {
        if self == u32::MAX {
            self
        } else {
            self + 1
        }
    }

    fn predecessor(self) -> (r: Self) {
        if self == 0 {
            self
        } else {
            self - 1
        }
    }
}

impl OrePlaintextOps for u16 {
    open spec fn to_int(self) -> int {
        self as int
    }

    open spec fn domain_min() -> int {
        0
    }

    open spec fn domain_max() -> int {
        u16::MAX as int
    }

    proof fn lemma_in_domain(self) {
    }

    fn minimum() -> (r: Self) {
        0
    }

    fn maximum() -> (r: Self) {
        u16::MAX
    }

    fn successor(self) -> (r: Self) {
        if self == u16::MAX {
            self
        } else {
            self + 1
        }
    }

    fn predecessor(self) -> (r: Self) {
        if self == 0 {
            self
        } else {
            self - 1
        }
    }
}

impl OrePlaintextOps for u8 {
    open spec fn to_int(self) -> int {
        self as int
    }

    open spec fn domain_min() -> int {
        0
    }

    open spec fn domain_max() -> int {
        u8::MAX as int
    }

    proof fn lemma_in_domain(self) {
    }

    fn minimum() -> (r: Self) {
        0
    }

    fn maximum() -> (r: Self) {
        u8::MAX
    }

    fn successor(self) -> (r: Self) {
        if self == u8::MAX {
            self
        } else {
            self + 1
        }
    }

    fn predecessor(self) -> (r: Self) {
        if self == 0 {
            self
        } else {
            self - 1
        }
    }
}

/// An `OrePlaintext` is a wrapper around an unsigned integer which represents
/// a plaintext value before it is encrypted with an ORE encryption scheme.
/// Its unsigned order is the native order of the source values it was
/// produced from, NaN sources excepted.
#[derive(PartialEq, Eq, PartialOrd, Ord, Debug, Copy, Clone)]
pub struct OrePlaintext<T>(pub T) where T: OrePlaintextOps;

/// Negative zero canonicalizes to positive zero; every other bit pattern
/// stands for itself.
pub open spec fn canonical_bits(bits: u64) -> u64 {
    if bits == F64_SIGN_BIT {
        0u64
    } else {
        bits
    }
}

/// The order-preserving image of a binary64 bit pattern, after negative zero
/// is canonicalized: a pattern with the sign bit clear has that bit flipped
/// (adding the sign bit moves it into the upper half), and a pattern with the
/// sign bit set has every bit flipped (subtracting it from all ones reverses
/// the order of the negatives and puts them in the lower half).
pub open spec fn encode_bits(bits: u64) -> u64 {
    let b = canonical_bits(bits);
    if b < F64_SIGN_BIT {
        (b + F64_SIGN_BIT) as u64
    } else {
        (u64::MAX - b) as u64
    }
}

/// The inverse image of an encoded value: the upper half has the sign bit
/// flipped back off, and the lower half is complemented back into a pattern
/// with the sign bit set.
pub open spec fn decode_bits(enc: u64) -> u64 {
    if enc >= F64_SIGN_BIT {
        (enc - F64_SIGN_BIT) as u64
    } else {
        (u64::MAX - enc) as u64
    }
}

/// The magnitude field of a binary64 bit pattern: everything below the sign
/// bit.
pub open spec fn f64_magnitude_bits(bits: u64) -> u64 {
    (bits % F64_SIGN_BIT) as u64
}

/// A binary64 pattern encodes NaN exactly when its magnitude lies above the
/// infinity magnitude.
pub open spec fn is_nan_bits(bits: u64) -> bool {
    f64_magnitude_bits(bits) > F64_INF_MAGNITUDE
}

/// A binary64 pattern encodes a finite value exactly when its magnitude lies
/// below the infinity magnitude.
pub open spec fn is_finite_bits(bits: u64) -> bool {
    f64_magnitude_bits(bits) < F64_INF_MAGNITUDE
}

/// The native `<` of two non-NaN binary64 values, read off their bit
/// patterns: non-negative patterns compare by magnitude, negative patterns
/// compare by magnitude reversed, and every negative value lies below every
/// non-negative one. Positive and negative zero compare equal. On NaN
/// patterns the relation is still total, but it means nothing, just as the
/// native order does not.
pub open spec fn f64_bits_lt(a: u64, b: u64) -> bool {
    let x = canonical_bits(a);
    let y = canonical_bits(b);
    if x < F64_SIGN_BIT && y < F64_SIGN_BIT {
        x < y
    } else if x >= F64_SIGN_BIT && y >= F64_SIGN_BIT {
        y < x
    } else {
        x >= F64_SIGN_BIT
    }
}

/// The native `==` of two non-NaN binary64 values, read off their bit
/// patterns: equality after negative zero canonicalizes to positive zero.
pub open spec fn f64_bits_eq(a: u64, b: u64) -> bool {
    canonical_bits(a) == canonical_bits(b)
}

impl OrePlaintext<u64> {
    /// Encode the bit pattern of a 64-bit float into an order-preserving
    /// plaintext. Total: NaN and infinity patterns are mapped too, though
    /// the order of NaN images is not meaningful.
    pub fn from_f64_bits(bits: u64) -> (r: OrePlaintext<u64>)
        ensures
            r.0 == encode_bits(bits),
    {
        let b: u64 = if bits == F64_SIGN_BIT {
            0
        } else {
            bits
        };
        if b < F64_SIGN_BIT {
            OrePlaintext(b + F64_SIGN_BIT)
        } else {
            OrePlaintext(u64::MAX - b)
        }
    }

    /// Recover the bit pattern of the 64-bit float a plaintext was encoded
    /// from. A value encoded from either zero comes back as positive zero;
    /// for values encoded from NaN the recovered pattern is some NaN whose
    /// identity callers must not rely on.
    pub fn to_f64_bits(self) -> (r: u64)
        ensures
            r == decode_bits(self.0),
    {
        let OrePlaintext(enc) = self;
        if enc >= F64_SIGN_BIT {
            enc - F64_SIGN_BIT
        } else {
            u64::MAX - enc
        }
    }
}

impl From<bool> for OrePlaintext<u64> {
    fn from(term: bool) -> (r: OrePlaintext<u64>) {
        OrePlaintext(if term { 1u64 } else { 0u64 })
    }
}

impl vstd::std_specs::convert::FromSpecImpl<bool> for OrePlaintext<u64> {
    open spec fn obeys_from_spec() -> bool {
        true
    }

    open spec fn from_spec(term: bool) -> OrePlaintext<u64> {
        OrePlaintext(if term { 1u64 } else { 0u64 })
    }
}

impl From<u8> for OrePlaintext<u64> {
    fn from(term: u8) -> (r: OrePlaintext<u64>) {
        OrePlaintext(term as u64)
    }
}

impl vstd::std_specs::convert::FromSpecImpl<u8> for OrePlaintext<u64> {
    open spec fn obeys_from_spec() -> bool {
        true
    }

    open spec fn from_spec(term: u8) -> OrePlaintext<u64> {
        OrePlaintext(term as u64)
    }
}

impl From<u16> for OrePlaintext<u64> {
    fn from(term: u16) -> (r: OrePlaintext<u64>) {
        OrePlaintext(term as u64)
    }
}

impl vstd::std_specs::convert::FromSpecImpl<u16> for OrePlaintext<u64> {
    open spec fn obeys_from_spec() -> bool {
        true
    }

    open spec fn from_spec(term: u16) -> OrePlaintext<u64> {
        OrePlaintext(term as u64)
    }
}

impl From<u32> for OrePlaintext<u64> {
    fn from(term: u32) -> (r: OrePlaintext<u64>) {
        OrePlaintext(term as u64)
    }
}

impl vstd::std_specs::convert::FromSpecImpl<u32> for OrePlaintext<u64> {
    open spec fn obeys_from_spec() -> bool {
        true
    }

    open spec fn from_spec(term: u32) -> OrePlaintext<u64> {
        OrePlaintext(term as u64)
    }
}

impl From<u64> for OrePlaintext<u64> {
    fn from(term: u64) -> (r: OrePlaintext<u64>) {
        OrePlaintext(term)
    }
}

impl vstd::std_specs::convert::FromSpecImpl<u64> for OrePlaintext<u64> {
    open spec fn obeys_from_spec() -> bool {
        true
    }

    open spec fn from_spec(term: u64) -> OrePlaintext<u64> {
        OrePlaintext(term)
    }
}

/// Round-trip law: decoding the encoding of any bit pattern gives the
/// pattern back, except that negative zero comes back as positive zero.
pub proof fn lemma_round_trip(bits: u64)
    ensures
        decode_bits(encode_bits(bits)) == canonical_bits(bits),
{
}

/// Order-preservation law: encoding is strictly monotone with respect to the
/// native order read off the bit patterns, and two patterns encode equal
/// exactly when they canonicalize equal (so positive and negative zero, and
/// only they, share an image).
pub proof fn lemma_order_preserved(a: u64, b: u64)
    ensures
        f64_bits_lt(a, b) <==> encode_bits(a) < encode_bits(b),
        f64_bits_eq(a, b) <==> encode_bits(a) == encode_bits(b),
{
}

/// Extremes law: among the encodings of non-NaN bit patterns, negative
/// infinity's is the least and positive infinity's is the greatest. (NaN
/// patterns are mapped too and land outside this band, which is why the
/// images of the infinities are not the unsigned extremes 0 and `u64::MAX`
/// themselves.)
pub proof fn lemma_infinities_are_extreme(b: u64)
    requires
        !is_nan_bits(b),
    ensures
        encode_bits(0xfff0_0000_0000_0000u64) <= encode_bits(b),
        encode_bits(b) <= encode_bits(0x7ff0_0000_0000_0000u64),
        is_finite_bits(b) ==> encode_bits(0xfff0_0000_0000_0000u64) < encode_bits(b),
        is_finite_bits(b) ==> encode_bits(b) < encode_bits(0x7ff0_0000_0000_0000u64),
{
}

/// The pointwise encoding of a sequence of binary64 bit patterns.
pub open spec fn encoded_seq(s: Seq<u64>) -> Seq<u64> {
    s.map_values(|b: u64| encode_bits(b))
}

/// Ascending native order of a sequence of bit patterns: no later element
/// lies strictly below an earlier one.
pub open spec fn sorted_by_f64_bits(s: Seq<u64>) -> bool {
    forall|i: int, j: int| 0 <= i < j < s.len() ==> !f64_bits_lt(s[j], s[i])
}

/// Ascending unsigned order of a sequence.
pub open spec fn sorted_u64_seq(s: Seq<u64>) -> bool {
    forall|i: int, j: int| 0 <= i < j < s.len() ==> s[i] <= s[j]
}

/// Sort-equivalence law: a sequence of bit patterns stands in ascending
/// native order exactly when the sequence of its encodings stands in
/// ascending unsigned order, so sorting a collection by the one comparison
/// orders it exactly as sorting its encodings by the other does.
pub proof fn lemma_sort_equivalence(s: Seq<u64>)
    ensures
        sorted_by_f64_bits(s) <==> sorted_u64_seq(encoded_seq(s)),
{
    let e = encoded_seq(s);
    assert(e.len() == s.len());
    if sorted_by_f64_bits(s) {
        assert forall|i: int, j: int| 0 <= i < j < e.len() implies e[i] <= e[j] by {
            assert(!f64_bits_lt(s[j], s[i]));
            assert(e[i] == encode_bits(s[i]));
            assert(e[j] == encode_bits(s[j]));
            lemma_order_preserved(s[j], s[i]);
        }
        assert(sorted_u64_seq(e));
    }
    if sorted_u64_seq(e) {
        assert forall|i: int, j: int| 0 <= i < j < s.len() implies !f64_bits_lt(s[j], s[i]) by {
            assert(e[i] <= e[j]);
            assert(e[i] == encode_bits(s[i]));
            assert(e[j] == encode_bits(s[j]));
            lemma_order_preserved(s[j], s[i]);
        }
        assert(sorted_by_f64_bits(s));
    }
}

} // verus!

