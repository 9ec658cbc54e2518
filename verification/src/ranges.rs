use crate::encode::{OrePlaintext, OrePlaintextOps};
use vstd::prelude::*;

verus! {

/// A closed interval over the encoded domain: the search space that a range
/// query must cover to realize one comparison predicate. Every constructor
/// keeps `min <= max`; a comparison that no value can satisfy comes out as a
/// single-point interval saturated at a domain extreme, never as an error,
/// since the interval type cannot express an empty set.
pub struct OreRange<T> where T: OrePlaintextOps {
    pub min: OrePlaintext<T>,
    pub max: OrePlaintext<T>,
}

/// The interval of `lo <= x <= hi`: `[lo, hi]` itself. The caller guarantees
/// `lo <= hi`; no validation is performed.
pub fn encode_between<T>(min: OrePlaintext<T>, max: OrePlaintext<T>) -> (r: OreRange<T>) where
    T: OrePlaintextOps

    requires
        min.0.to_int() <= max.0.to_int(),
    ensures
        r.min == min,
        r.max == max,
        r.min.0.to_int() <= r.max.0.to_int(),
{
    OreRange { min, max }
}

/// The interval of `x < v`: `[domain minimum, predecessor(v)]`, the
/// predecessor saturating so that `v` at the domain minimum yields the
/// single-point interval at that minimum rather than wrapping or failing.
pub fn encode_lt<T>(value: OrePlaintext<T>) -> (r: OreRange<T>) where T: OrePlaintextOps
    ensures
        r.min.0.to_int() == T::domain_min(),
        r.max.0.to_int() == if value.0.to_int() == T::domain_min() {
            T::domain_min()
        } else {
            value.0.to_int() - 1
        },
        r.min.0.to_int() <= r.max.0.to_int(),
{
    let OrePlaintext(upper) = value;
    proof {
        upper.lemma_in_domain();
    }
    OreRange { min: OrePlaintext(T::minimum()), max: OrePlaintext(upper.predecessor()) }
}

/// The interval of `x <= v`: `[domain minimum, v]`.
pub fn encode_lte<T>(value: OrePlaintext<T>) -> (r: OreRange<T>) where T: OrePlaintextOps
    ensures
        r.min.0.to_int() == T::domain_min(),
        r.max == value,
        r.min.0.to_int() <= r.max.0.to_int(),
{
    proof {
        value.0.lemma_in_domain();
    }
    OreRange { min: OrePlaintext(T::minimum()), max: value }
}

/// The interval of `x > v`: `[successor(v), domain maximum]`, the successor
/// saturating so that `v` at the domain maximum yields the single-point
/// interval at that maximum rather than wrapping or failing.
pub fn encode_gt<T>(value: OrePlaintext<T>) -> (r: OreRange<T>) where T: OrePlaintextOps
    ensures
        r.min.0.to_int() == if value.0.to_int() == T::domain_max() {
            T::domain_max()
        } else {
            value.0.to_int() + 1
        },
        r.max.0.to_int() == T::domain_max(),
        r.min.0.to_int() <= r.max.0.to_int(),
{
    let OrePlaintext(lower) = value;
    proof {
        lower.lemma_in_domain();
    }
    OreRange { min: OrePlaintext(lower.successor()), max: OrePlaintext(T::maximum()) }
}

/// The interval of `x >= v`: `[v, domain maximum]`.
pub fn encode_gte<T>(value: OrePlaintext<T>) -> (r: OreRange<T>) where T: OrePlaintextOps
    ensures
        r.min == value,
        r.max.0.to_int() == T::domain_max(),
        r.min.0.to_int() <= r.max.0.to_int(),
{
    proof {
        value.0.lemma_in_domain();
    }
    OreRange { min: value, max: OrePlaintext(T::maximum()) }
}

/// The interval of `x == v`: the single point `[v, v]`.
pub fn encode_eq<T>(value: OrePlaintext<T>) -> (r: OreRange<T>) where T: OrePlaintextOps
    ensures
        r.min == value,
        r.max == value,
{
    OreRange { min: value, max: value }
}

} // verus!
