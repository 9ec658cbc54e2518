use ore_encoding_rs::OrePlaintext;
use std::cmp::Ordering;

#[test]
// -0.0 and 0.0 compare as equal in f64's PartialOrd implementation. This
// test demonstrates that fact and why -0.0 must be filtered out of any
// collection whose encoded sort order is assumed meaningful: the sort order
// will be nondeterministic for vectors containing both 0.0 and -0.0.
fn zero_and_negative_zero() -> () {
    assert_eq!(0.0f64.partial_cmp(&-0.0f64), Some(Ordering::Equal))
}

#[test]
fn test_subnormal_sorts_correctly() -> () {
    let subnormal = f64::MIN_POSITIVE / 1000.0f64;
    let subnormal_pt = OrePlaintext::from_f64_bits(subnormal.to_bits());
    let zero_pt = OrePlaintext::from_f64_bits(0.0f64.to_bits());
    let min_pt = OrePlaintext::from_f64_bits(f64::MIN_POSITIVE.to_bits());

    assert_eq!(zero_pt.0.cmp(&min_pt.0), Ordering::Less);
    assert_eq!(zero_pt.0.cmp(&subnormal_pt.0), Ordering::Less);
    assert_eq!(subnormal_pt.0.cmp(&min_pt.0), Ordering::Less)
}

#[test]
fn test_infinity_sorts_correctly() -> () {
    let min_pt = OrePlaintext::from_f64_bits(f64::MIN.to_bits());
    let max_pt = OrePlaintext::from_f64_bits(f64::MAX.to_bits());
    let zero_pt = OrePlaintext::from_f64_bits(0.0f64.to_bits());
    let inf_pt = OrePlaintext::from_f64_bits(f64::INFINITY.to_bits());
    let ninf_pt = OrePlaintext::from_f64_bits(f64::NEG_INFINITY.to_bits());

    assert_eq!(ninf_pt.0.cmp(&min_pt.0), Ordering::Less);
    assert_eq!(ninf_pt.0.cmp(&max_pt.0), Ordering::Less);
    assert_eq!(ninf_pt.0.cmp(&zero_pt.0), Ordering::Less);
    assert_eq!(ninf_pt.0.cmp(&inf_pt.0), Ordering::Less);

    assert_eq!(inf_pt.0.cmp(&min_pt.0), Ordering::Greater);
    assert_eq!(inf_pt.0.cmp(&max_pt.0), Ordering::Greater);
    assert_eq!(inf_pt.0.cmp(&zero_pt.0), Ordering::Greater);
    assert_eq!(inf_pt.0.cmp(&ninf_pt.0), Ordering::Greater);
}

#[test]
fn test_negatives_compare_correctly() -> () {
    let big_pt = OrePlaintext::from_f64_bits((-10000f64).to_bits());
    let sml_pt = OrePlaintext::from_f64_bits((-0.001f64).to_bits());

    assert_eq!(big_pt.0.cmp(&sml_pt.0), Ordering::Less);
}

#[test]
fn test_zeroes_compare_correctly() -> () {
    let neg_pt = OrePlaintext::from_f64_bits((-0.0f64).to_bits());
    let pos_pt = OrePlaintext::from_f64_bits(0.0f64.to_bits());

    assert_eq!(neg_pt.0.cmp(&pos_pt.0), Ordering::Equal);
}

#[test]
fn test_exact_encodings() -> () {
    // Non-negative patterns get the sign bit added; negative patterns are
    // complemented.
    assert_eq!(OrePlaintext::from_f64_bits(0.0f64.to_bits()).0, 0x8000_0000_0000_0000u64);
    assert_eq!(OrePlaintext::from_f64_bits(1.0f64.to_bits()).0, 0xbff0_0000_0000_0000u64);
    assert_eq!(OrePlaintext::from_f64_bits((-2.0f64).to_bits()).0, 0x3fff_ffff_ffff_ffffu64);
    assert_eq!(
        OrePlaintext::from_f64_bits(f64::NEG_INFINITY.to_bits()).0,
        0x000f_ffff_ffff_ffffu64
    );
    assert_eq!(OrePlaintext::from_f64_bits(f64::INFINITY.to_bits()).0, 0xfff0_0000_0000_0000u64);
}

#[test]
fn test_roundtrip_finite_values() -> () {
    let values = [
        123.456f64,
        -0.001f64,
        -10000f64,
        0.0f64,
        f64::MIN,
        f64::MAX,
        f64::MIN_POSITIVE,
        f64::MIN_POSITIVE / 1000.0f64,
        5e-324f64,
        f64::INFINITY,
        f64::NEG_INFINITY,
    ];
    for x in values {
        let pt = OrePlaintext::from_f64_bits(x.to_bits());
        let back = f64::from_bits(pt.to_f64_bits());
        assert_eq!(back, x);
        assert_eq!(back.to_bits(), x.to_bits());
    }
}

#[test]
fn test_roundtrip_negative_zero_becomes_positive_zero() -> () {
    let pt = OrePlaintext::from_f64_bits((-0.0f64).to_bits());
    let back = f64::from_bits(pt.to_f64_bits());
    assert_eq!(back, 0.0f64);
    assert!(back.is_sign_positive());
}

#[test]
fn test_order_preserved_pairwise() -> () {
    let pairs = [
        (-10000f64, -0.001f64),
        (-0.001f64, 0.0f64),
        (0.0f64, 5e-324f64),
        (5e-324f64, f64::MIN_POSITIVE),
        (f64::MIN_POSITIVE, 123.456f64),
        (123.456f64, f64::MAX),
        (f64::NEG_INFINITY, f64::MIN),
        (f64::MAX, f64::INFINITY),
    ];
    for (a, b) in pairs {
        assert!(a < b);
        let a_pt = OrePlaintext::from_f64_bits(a.to_bits());
        let b_pt = OrePlaintext::from_f64_bits(b.to_bits());
        assert!(a_pt.0 < b_pt.0);
    }
}

#[test]
fn test_equal_values_encode_equal() -> () {
    let a_pt = OrePlaintext::from_f64_bits(0.0f64.to_bits());
    let b_pt = OrePlaintext::from_f64_bits((-0.0f64).to_bits());
    assert_eq!(a_pt.0, b_pt.0);
    let c_pt = OrePlaintext::from_f64_bits(123.456f64.to_bits());
    let d_pt = OrePlaintext::from_f64_bits(123.456f64.to_bits());
    assert_eq!(c_pt.0, d_pt.0);
}

#[test]
fn test_sort_by_encoding_matches_native_sort() -> () {
    // Finite, no NaN, no -0.0: the filter under which the native order is
    // deterministic.
    let numbers = vec![
        3.5f64,
        -1.25f64,
        0.0f64,
        f64::MAX,
        f64::MIN,
        5e-324f64,
        -5e-324f64,
        1e308f64,
        -1e308f64,
        42.0f64,
        -42.0f64,
        0.5f64,
    ];

    let mut sorted_by_f64 = numbers.clone();
    sorted_by_f64.sort_by(|a, b| a.partial_cmp(b).unwrap());

    let mut sorted_by_u64 = numbers.clone();
    sorted_by_u64.sort_by(|a, b| {
        OrePlaintext::from_f64_bits(a.to_bits()).cmp(&OrePlaintext::from_f64_bits(b.to_bits()))
    });

    assert_eq!(sorted_by_f64, sorted_by_u64);
}

#[test]
fn test_from_unsigned_and_bool() -> () {
    assert_eq!(OrePlaintext::from(false).0, 0u64);
    assert_eq!(OrePlaintext::from(true).0, 1u64);
    assert_eq!(OrePlaintext::from(200u8).0, 200u64);
    assert_eq!(OrePlaintext::from(60000u16).0, 60000u64);
    assert_eq!(OrePlaintext::from(4000000000u32).0, 4000000000u64);
    assert_eq!(OrePlaintext::from(u64::MAX).0, u64::MAX);
}
