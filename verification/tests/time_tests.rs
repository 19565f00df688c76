use capture_core::time::CMTime;
use capture_core::time::CMTimeRoundingMethod;
use capture_core::time::TimeComparison;

#[test]
fn test_flags_and_predicates() {
    let t = CMTime::make(5, 600);
    assert!(t.is_valid());
    assert!(t.is_numeric());
    assert!(!t.is_invalid());
    assert!(!t.is_indefinite());
    assert!(!t.is_positive_infinity());
    assert!(!t.is_negative_infinity());
    assert!(!t.has_been_rounded());

    let invalid = CMTime::invalid();
    assert!(invalid.is_invalid());
    assert!(!invalid.is_numeric());

    let indefinite = CMTime::indefinite();
    assert!(indefinite.is_valid());
    assert!(indefinite.is_indefinite());
    assert!(!indefinite.is_numeric());

    let pos = CMTime::positive_infinity();
    assert!(pos.is_positive_infinity());
    assert!(!pos.is_numeric());

    let neg = CMTime::negative_infinity();
    assert!(neg.is_negative_infinity());
    assert!(!neg.is_numeric());

    let zero = CMTime::zero();
    assert!(zero.is_numeric());
    assert_eq!(zero.value, 0);
}

#[test]
fn test_new_with_seconds_recovers_seconds() {
    // 90 seconds at scale 1000 is the exact value 90000/1000: integer
    // division recovers the seconds without loss.
    let t = CMTime::new_with_seconds(90, 1000);
    assert_eq!(t.value, 90000);
    assert_eq!(t.scale, 1000);
    assert!(t.is_numeric());
    assert_eq!(t.value / t.scale as i64, 90);

    let u = CMTime::new_with_seconds(-3, 600);
    assert_eq!(u.value, -1800);
    assert_eq!(u.value / u.scale as i64, -3);
}

#[test]
fn test_convert_timescale_exact() {
    // 3/2 at scale 4 is exactly 6/4: no rounding, no rounded mark.
    let t = CMTime::make(3, 2);
    let r = t.convert_timescale(4, CMTimeRoundingMethod::HalfAwayFromZero);
    assert_eq!(r.value, 6);
    assert_eq!(r.scale, 4);
    assert!(r.is_numeric());
    assert!(!r.has_been_rounded());
}

#[test]
fn test_convert_timescale_rounding_positive() {
    // 7/10 at scale 3 is exactly 2.1 thirds.
    let t = CMTime::make(7, 10);
    let half = t.convert_timescale(3, CMTimeRoundingMethod::HalfAwayFromZero);
    assert_eq!(half.value, 2);
    assert!(half.has_been_rounded());
    let toward_zero = t.convert_timescale(3, CMTimeRoundingMethod::TowardZero);
    assert_eq!(toward_zero.value, 2);
    let away = t.convert_timescale(3, CMTimeRoundingMethod::AwayFromZero);
    assert_eq!(away.value, 3);
    let quicktime = t.convert_timescale(3, CMTimeRoundingMethod::QuickTime);
    assert_eq!(quicktime.value, 2);
    let up = t.convert_timescale(3, CMTimeRoundingMethod::TowardPositiveInfinity);
    assert_eq!(up.value, 3);
    let down = t.convert_timescale(3, CMTimeRoundingMethod::TowardNegativeInfinity);
    assert_eq!(down.value, 2);
}

#[test]
fn test_convert_timescale_rounding_negative() {
    // -7/10 at scale 3 is exactly -2.1 thirds.
    let t = CMTime::make(-7, 10);
    let half = t.convert_timescale(3, CMTimeRoundingMethod::HalfAwayFromZero);
    assert_eq!(half.value, -2);
    let toward_zero = t.convert_timescale(3, CMTimeRoundingMethod::TowardZero);
    assert_eq!(toward_zero.value, -2);
    let away = t.convert_timescale(3, CMTimeRoundingMethod::AwayFromZero);
    assert_eq!(away.value, -3);
    let up = t.convert_timescale(3, CMTimeRoundingMethod::TowardPositiveInfinity);
    assert_eq!(up.value, -2);
    let down = t.convert_timescale(3, CMTimeRoundingMethod::TowardNegativeInfinity);
    assert_eq!(down.value, -3);
}

#[test]
fn test_convert_timescale_half_tie_rounds_away() {
    // 1/2 at scale 1 is exactly one half: the tie goes away from zero.
    let t = CMTime::make(1, 2);
    let r = t.convert_timescale(1, CMTimeRoundingMethod::HalfAwayFromZero);
    assert_eq!(r.value, 1);
    let n = CMTime::make(-1, 2);
    let s = n.convert_timescale(1, CMTimeRoundingMethod::HalfAwayFromZero);
    assert_eq!(s.value, -1);
}

#[test]
fn test_convert_timescale_passes_non_numeric_through() {
    let pos = CMTime::positive_infinity();
    let r = pos.convert_timescale(10, CMTimeRoundingMethod::HalfAwayFromZero);
    assert!(r.is_positive_infinity());
    let invalid = CMTime::invalid();
    let s = invalid.convert_timescale(10, CMTimeRoundingMethod::HalfAwayFromZero);
    assert!(s.is_invalid());
}

#[test]
fn test_compare_equal_across_scales() {
    // 1/2 and 2/4 are the same rational; the comparator normalizes the
    // scales instead of comparing fields.
    let a = CMTime::make(1, 2);
    let b = CMTime::make(2, 4);
    assert!(matches!(a.compare(&b), TimeComparison::Equal));
    assert!(a == b);
    let c = CMTime::make(1, 3);
    assert!(matches!(c.compare(&a), TimeComparison::Less));
    assert!(matches!(a.compare(&c), TimeComparison::Greater));
    assert_eq!(a.partial_cmp(&c), Some(std::cmp::Ordering::Greater));
    assert!(c < a);
}

#[test]
fn test_compare_orders_classes() {
    let invalid = CMTime::invalid();
    let neg = CMTime::negative_infinity();
    let num = CMTime::make(0, 1);
    let pos = CMTime::positive_infinity();
    let indefinite = CMTime::indefinite();
    assert!(matches!(invalid.compare(&neg), TimeComparison::Less));
    assert!(matches!(neg.compare(&num), TimeComparison::Less));
    assert!(matches!(num.compare(&pos), TimeComparison::Less));
    assert!(matches!(pos.compare(&indefinite), TimeComparison::Less));
    assert!(matches!(neg.compare(&neg), TimeComparison::Equal));
    assert!(matches!(pos.compare(&neg), TimeComparison::Greater));
}

#[test]
fn test_compare_epoch_before_value() {
    let early = CMTime::make_with_epoch(100, 1, 0);
    let late = CMTime::make_with_epoch(0, 1, 1);
    assert!(matches!(early.compare(&late), TimeComparison::Less));
}

#[test]
fn test_add_same_scale() {
    let a = CMTime::make(1, 600);
    let b = CMTime::make(2, 600);
    let s = a.add(&b);
    assert!(s.is_numeric());
    assert_eq!(s.value, 3);
    assert_eq!(s.scale, 600);
    assert!(!s.has_been_rounded());
}

#[test]
fn test_add_converts_scale_and_marks_rounding() {
    // 1/2 + 1/4: the right operand becomes 1/2 under half-away rounding,
    // so the sum is 2/2 and carries the rounded mark.
    let a = CMTime::make(1, 2);
    let b = CMTime::make(1, 4);
    let s = a.add(&b);
    assert!(s.is_numeric());
    assert_eq!(s.value, 2);
    assert_eq!(s.scale, 2);
    assert!(s.has_been_rounded());
}

#[test]
fn test_add_infinities() {
    let pos = CMTime::positive_infinity();
    let neg = CMTime::negative_infinity();
    let num = CMTime::make(1, 1);
    assert!(pos.add(&neg).is_invalid());
    assert!(pos.add(&num).is_positive_infinity());
    assert!(num.add(&neg).is_negative_infinity());
    assert!(CMTime::indefinite().add(&num).is_indefinite());
    assert!(CMTime::invalid().add(&num).is_invalid());
}

#[test]
fn test_add_epoch_mismatch_is_invalid() {
    let a = CMTime::make_with_epoch(1, 1, 0);
    let b = CMTime::make_with_epoch(1, 1, 7);
    assert!(a.add(&b).is_invalid());
}

#[test]
fn test_add_overflow_is_invalid() {
    let a = CMTime::make(i64::MAX, 1);
    let b = CMTime::make(1, 1);
    assert!(a.add(&b).is_invalid());
}

#[test]
fn test_sub() {
    let a = CMTime::make(5, 600);
    let b = CMTime::make(2, 600);
    let d = a.sub(&b);
    assert_eq!(d.value, 3);
    assert!(d.is_numeric());
    let pos = CMTime::positive_infinity();
    assert!(pos.sub(&pos).is_invalid());
    assert!(a.sub(&pos).is_negative_infinity());
    assert!(pos.sub(&a).is_positive_infinity());
}

#[test]
fn test_mul() {
    let a = CMTime::make(7, 600);
    let p = a.mul(3);
    assert_eq!(p.value, 21);
    assert_eq!(p.scale, 600);
    let q = a.mul(-2);
    assert_eq!(q.value, -14);
    let overflow = CMTime::make(i64::MAX, 1).mul(2);
    assert!(overflow.is_invalid());
    let pos = CMTime::positive_infinity();
    assert!(pos.mul(2).is_positive_infinity());
    assert!(pos.mul(-2).is_negative_infinity());
    assert!(pos.mul(0).is_invalid());
}

#[test]
fn test_multiply_by_ratio() {
    // 7/10 scaled by 1/2 is 3.5 tenths, truncated toward zero to 3.
    let a = CMTime::make(7, 10);
    let r = a.multiply_by_ratio(1, 2);
    assert_eq!(r.value, 3);
    assert_eq!(r.scale, 10);
    assert!(r.has_been_rounded());
    let exact = CMTime::make(8, 10).multiply_by_ratio(1, 2);
    assert_eq!(exact.value, 4);
    assert!(!exact.has_been_rounded());
    let neg = CMTime::make(-7, 10).multiply_by_ratio(1, 2);
    assert_eq!(neg.value, -3);
    let pos = CMTime::positive_infinity();
    assert!(pos.multiply_by_ratio(-1, 2).is_negative_infinity());
}

#[test]
fn test_rounding_method_codes() {
    assert_eq!(CMTimeRoundingMethod::HalfAwayFromZero.to_u32(), 1);
    assert_eq!(CMTimeRoundingMethod::TowardZero.to_u32(), 2);
    assert_eq!(CMTimeRoundingMethod::AwayFromZero.to_u32(), 3);
    assert_eq!(CMTimeRoundingMethod::QuickTime.to_u32(), 4);
    assert_eq!(CMTimeRoundingMethod::TowardPositiveInfinity.to_u32(), 5);
    assert_eq!(CMTimeRoundingMethod::TowardNegativeInfinity.to_u32(), 6);
    assert_eq!(CMTimeRoundingMethod::default(), CMTimeRoundingMethod::HalfAwayFromZero);
}
