use bounded_integer::nibble::{NZUNibble, SNibble, UNibble};

#[test]
fn signed_nibble_scenario() {
    assert_eq!(SNibble::MIN_VALUE, -8);
    assert_eq!(SNibble::MAX_VALUE, 7);
    assert_eq!(SNibble::MIN.get(), -8);
    assert_eq!(SNibble::MAX.get(), 7);
    assert!(!SNibble::in_range(-9));
    assert!(!SNibble::in_range(8));
    assert_eq!(SNibble::new_saturating(-128), SNibble::MIN);
    assert_eq!(SNibble::new_saturating(127), SNibble::MAX);
    let count = (i8::MIN..=i8::MAX).filter_map(SNibble::new).count();
    assert_eq!(count, 16);
}

#[test]
fn in_range_exhaustive() {
    for v in i8::MIN..=i8::MAX {
        assert_eq!(SNibble::in_range(v), (-8..=7).contains(&v));
    }
    for v in u8::MIN..=u8::MAX {
        assert_eq!(UNibble::in_range(v), v <= 15);
        assert_eq!(NZUNibble::in_range(v), (1..=15).contains(&v));
    }
}

#[test]
fn new_matches_in_range() {
    for v in i8::MIN..=i8::MAX {
        assert_eq!(SNibble::new(v).is_some(), SNibble::in_range(v));
        if let Some(x) = SNibble::new(v) {
            assert_eq!(x.get(), v);
        }
    }
    for v in u8::MIN..=u8::MAX {
        assert_eq!(UNibble::new(v).is_some(), UNibble::in_range(v));
        assert_eq!(NZUNibble::new(v).map(NZUNibble::get), NZUNibble::in_range(v).then_some(v));
    }
}

#[test]
fn saturating_idempotent() {
    for v in i8::MIN..=i8::MAX {
        let s = SNibble::new_saturating(v);
        assert_eq!(SNibble::new_saturating(s.get()), s);
    }
    for v in u8::MIN..=u8::MAX {
        let s = NZUNibble::new_saturating(v);
        assert_eq!(NZUNibble::new_saturating(s.get()), s);
        let u = UNibble::new_saturating(v);
        assert_eq!(UNibble::new_saturating(u.get()), u);
    }
    assert_eq!(NZUNibble::new_saturating(0), NZUNibble::MIN);
    assert_eq!(UNibble::new_saturating(200).get(), 15);
    assert_eq!(SNibble::new_saturating(3).get(), 3);
}

#[test]
fn round_trip_every_variant() {
    for v in -8i8..=7 {
        let x = SNibble::new(v).unwrap();
        assert_eq!(SNibble::new(x.get()), Some(x));
    }
    assert_eq!(SNibble::new(0), Some(SNibble::U0));
    assert_eq!(SNibble::new(-8), Some(SNibble::N8));
    assert_eq!(UNibble::new(9), Some(UNibble::U9));
    assert_eq!(NZUNibble::new(1), Some(NZUNibble::U1));
}

#[test]
fn checked_add_symmetric() {
    for a in -8i8..=7 {
        for b in -8i8..=7 {
            let x = SNibble::new(a).unwrap();
            let y = SNibble::new(b).unwrap();
            assert_eq!(x.checked_add(b), y.checked_add(a));
            assert_eq!(x.checked_mul(b), y.checked_mul(a));
        }
    }
}

#[test]
fn unsigned_nibble_arithmetic() {
    assert!(UNibble::new(16).is_none());
    assert_eq!(UNibble::new(15).unwrap().get(), 15);
    assert_eq!(UNibble::MIN.checked_add(0), Some(UNibble::MIN));
    assert!(UNibble::MAX.checked_add(1).is_none());
    assert_eq!(UNibble::MAX.saturating_add(200), UNibble::MAX);
    assert_eq!(UNibble::U3.checked_sub(5), None);
    assert_eq!(UNibble::U3.saturating_sub(5), UNibble::U0);
    assert_eq!(NZUNibble::U3.saturating_sub(5), NZUNibble::U1);
    assert_eq!(UNibble::U3.checked_mul(5), Some(UNibble::U15));
    assert_eq!(UNibble::U4.checked_mul(4), None);
    assert_eq!(UNibble::U4.saturating_mul(100), UNibble::U15);
    assert_eq!(UNibble::U7.checked_div(2), Some(UNibble::U3));
    assert_eq!(UNibble::U7.checked_div(0), None);
    assert_eq!(UNibble::U7.checked_rem(4), Some(UNibble::U3));
    assert_eq!(NZUNibble::U7.checked_rem(7), None);
}

#[test]
fn signed_nibble_arithmetic() {
    assert_eq!(SNibble::N7.checked_div(2), Some(SNibble::N3));
    assert_eq!(SNibble::N7.checked_rem(2), Some(SNibble::N1));
    assert_eq!(SNibble::P7.checked_rem(-2), Some(SNibble::P1));
    assert_eq!(SNibble::N8.checked_div(-1), None);
    assert_eq!(SNibble::N8.checked_div(0), None);
    assert_eq!(SNibble::N8.checked_neg(), None);
    assert_eq!(SNibble::N8.saturating_neg(), SNibble::P7);
    assert_eq!(SNibble::N7.checked_neg(), Some(SNibble::P7));
    assert_eq!(SNibble::N8.checked_abs(), None);
    assert_eq!(SNibble::N5.checked_abs(), Some(SNibble::P5));
    assert_eq!(SNibble::P7.checked_sub(-1), None);
    assert_eq!(SNibble::P7.saturating_sub(-100), SNibble::P7);
    assert_eq!(SNibble::N8.saturating_add(-128), SNibble::N8);
    assert_eq!(SNibble::N2.checked_mul(4), Some(SNibble::N8));
    assert_eq!(SNibble::N2.saturating_mul(100), SNibble::N8);
}

#[test]
fn euclidean_division() {
    assert_eq!(SNibble::N7.checked_div_euclid(2), Some(SNibble::N4));
    assert_eq!(SNibble::N7.checked_rem_euclid(2), Some(SNibble::P1));
    assert_eq!(SNibble::P7.checked_div_euclid(-2), Some(SNibble::N3));
    assert_eq!(SNibble::N7.checked_rem_euclid(-2), Some(SNibble::P1));
    assert_eq!(SNibble::N7.checked_div_euclid(0), None);
    assert_eq!(SNibble::N8.checked_div_euclid(-1), None);
    assert_eq!(UNibble::U9.checked_div_euclid(2), Some(UNibble::U4));
    assert_eq!(UNibble::U9.checked_rem_euclid(4), Some(UNibble::U1));
    assert_eq!(NZUNibble::U8.checked_rem_euclid(4), None);
    assert_eq!(UNibble::U9.checked_rem_euclid(0), None);
}

#[test]
fn unchecked_construction() {
    assert_eq!(SNibble::new_unchecked(-3), SNibble::N3);
    assert_eq!(UNibble::new_unchecked(0), UNibble::U0);
    assert_eq!(NZUNibble::new_unchecked(15), NZUNibble::MAX);
}

#[test]
fn exponentiation() {
    assert_eq!(UNibble::U2.checked_pow(3), Some(UNibble::U8));
    assert_eq!(UNibble::U2.checked_pow(4), None);
    assert_eq!(UNibble::U2.saturating_pow(40), UNibble::U15);
    assert_eq!(UNibble::U0.checked_pow(0), Some(UNibble::U1));
    assert_eq!(UNibble::U0.checked_pow(u32::MAX), Some(UNibble::U0));
    assert_eq!(NZUNibble::U1.checked_pow(u32::MAX), Some(NZUNibble::U1));
    assert_eq!(SNibble::N2.checked_pow(3), Some(SNibble::N8));
    assert_eq!(SNibble::N2.checked_pow(2), Some(SNibble::P4));
    assert_eq!(SNibble::N2.checked_pow(4), None);
    assert_eq!(SNibble::N2.saturating_pow(5), SNibble::N8);
    assert_eq!(SNibble::N2.saturating_pow(1000), SNibble::P7);
    assert_eq!(SNibble::N2.saturating_pow(1001), SNibble::N8);
    assert_eq!(SNibble::N1.checked_pow(u32::MAX), Some(SNibble::N1));
    assert_eq!(SNibble::N1.checked_pow(u32::MAX - 1), Some(SNibble::P1));
    for e in 0u32..20 {
        for v in -8i8..=7 {
            let x = SNibble::new(v).unwrap();
            let exact = (v as i128).checked_pow(e);
            let expected = exact.and_then(|p| i8::try_from(p).ok()).and_then(SNibble::new);
            assert_eq!(x.checked_pow(e), expected);
        }
    }
}
