use ime_indicator::easing::{
    ease, fade_alpha, try_ease, Fraction, MAX_DENOMINATOR, MAX_EASED_DENOMINATOR,
};

fn frac(num: u128, den: u128) -> Fraction {
    Fraction::new(num, den).expect("a fraction in [0, 1]")
}

fn as_float(f: &Fraction) -> f64 {
    f.num as f64 / f.den as f64
}

#[test]
fn fraction_new_accepts_unit_interval() {
    assert_eq!(Fraction::new(0, 1), Some(Fraction { num: 0, den: 1 }));
    assert_eq!(Fraction::new(3, 4), Some(Fraction { num: 3, den: 4 }));
    assert_eq!(Fraction::new(7, 7), Some(Fraction { num: 7, den: 7 }));
    assert_eq!(
        Fraction::new(1, MAX_DENOMINATOR),
        Some(Fraction { num: 1, den: MAX_DENOMINATOR })
    );
}

#[test]
fn fraction_new_rejects_out_of_range() {
    assert_eq!(Fraction::new(0, 0), None);
    assert_eq!(Fraction::new(1, 0), None);
    assert_eq!(Fraction::new(5, 4), None);
    assert_eq!(Fraction::new(1, MAX_DENOMINATOR + 1), None);
}

#[test]
fn fraction_zero_and_one() {
    assert_eq!(Fraction::zero(), Fraction { num: 0, den: 1 });
    assert_eq!(Fraction::one(), Fraction { num: 1, den: 1 });
    assert!(Fraction::one().is_one());
    assert!(frac(9, 9).is_one());
    assert!(!Fraction::zero().is_one());
    assert!(!frac(8, 9).is_one());
}

#[test]
fn ease_at_zero_is_zero() {
    let e = ease(&frac(0, 1));
    assert_eq!(e, Fraction { num: 0, den: 1 });
    let e = ease(&frac(0, 10));
    assert_eq!(e, Fraction { num: 0, den: 1000 });
}

#[test]
fn ease_at_one_is_one() {
    let e = ease(&frac(1, 1));
    assert_eq!(e, Fraction { num: 1, den: 1 });
    let e = ease(&frac(10, 10));
    assert_eq!(e, Fraction { num: 1000, den: 1000 });
    assert!(e.is_one());
}

#[test]
fn ease_out_cubic_exact_values() {
    // 1 - (1 - 1/2)^3 = 7/8
    assert_eq!(ease(&frac(1, 2)), Fraction { num: 7, den: 8 });
    // 1 - (1 - 1/10)^3 = 271/1000
    assert_eq!(ease(&frac(1, 10)), Fraction { num: 271, den: 1000 });
    // 1 - (1 - 3/4)^3 = 63/64
    assert_eq!(ease(&frac(3, 4)), Fraction { num: 63, den: 64 });
}

#[test]
fn ease_matches_floating_point_formula() {
    let den: u128 = 40;
    for num in 0..=den {
        let t = num as f64 / den as f64;
        let expected = 1.0 - (1.0 - t).powi(3);
        let got = as_float(&ease(&frac(num, den)));
        assert!((got - expected).abs() < 1e-12);
    }
}

#[test]
fn ease_is_monotone_on_a_grid() {
    let den: u128 = 100;
    let mut previous = ease(&frac(0, den));
    for num in 1..=den {
        let next = ease(&frac(num, den));
        assert_eq!(next.den, previous.den);
        assert!(next.num > previous.num);
        previous = next;
    }
}

#[test]
fn ease_is_monotone_across_denominators() {
    // 1/3 < 1/2 < 2/3 < 3/4
    let values = [frac(1, 3), frac(1, 2), frac(2, 3), frac(3, 4)];
    for pair in values.windows(2) {
        let a = ease(&pair[0]);
        let b = ease(&pair[1]);
        assert!(a.num * b.den < b.num * a.den);
    }
}

#[test]
fn fade_alpha_exact_values() {
    assert_eq!(fade_alpha(0, 10), Fraction { num: 1000, den: 1000 });
    assert_eq!(fade_alpha(1, 10), Fraction { num: 729, den: 1000 });
    assert_eq!(fade_alpha(5, 10), Fraction { num: 125, den: 1000 });
    assert_eq!(fade_alpha(9, 10), Fraction { num: 1, den: 1000 });
    assert_eq!(fade_alpha(10, 10), Fraction { num: 0, den: 1000 });
}

#[test]
fn fade_alpha_strictly_decreases_to_zero() {
    for frames in 1u32..=30 {
        let mut previous = fade_alpha(0, frames);
        assert!(previous.is_one());
        for step in 1..=frames {
            let next = fade_alpha(step, frames);
            assert_eq!(next.den, previous.den);
            assert!(next.num < previous.num);
            previous = next;
        }
        assert_eq!(previous.num, 0);
    }
}

#[test]
fn fade_alpha_last_step_below_first_step() {
    for frames in 2u32..=30 {
        let first = fade_alpha(1, frames);
        let last = fade_alpha(frames, frames);
        assert!(last.num < first.num);
    }
}

#[test]
fn fade_alpha_single_frame_is_transparent() {
    assert_eq!(fade_alpha(1, 1), Fraction { num: 0, den: 1 });
}

#[test]
fn fade_alpha_with_largest_frame_count() {
    let n: u32 = u32::MAX;
    let full = fade_alpha(0, n);
    assert!(full.is_one());
    assert_eq!(full.den, (n as u128) * (n as u128) * (n as u128));
    assert!(full.den <= MAX_DENOMINATOR);
    let nearly_gone = fade_alpha(n - 1, n);
    assert_eq!(nearly_gone.num, 1);
    assert_eq!(fade_alpha(n, n).num, 0);
}

#[test]
fn try_ease_agrees_with_ease() {
    assert_eq!(try_ease(&frac(1, 2)), Some(Fraction { num: 7, den: 8 }));
    assert_eq!(try_ease(&frac(0, 3)), Some(Fraction { num: 0, den: 27 }));
    assert_eq!(try_ease(&frac(3, 3)), Some(Fraction { num: 27, den: 27 }));
}

#[test]
fn try_ease_at_the_largest_denominator() {
    let den: u128 = MAX_EASED_DENOMINATOR;
    assert_eq!(den, 1u128 << 40);
    let eased = try_ease(&frac(den, den)).unwrap();
    assert_eq!(eased, Fraction { num: MAX_DENOMINATOR, den: MAX_DENOMINATOR });
    let eased = try_ease(&frac(den - 1, den)).unwrap();
    assert_eq!(eased, Fraction { num: MAX_DENOMINATOR - 1, den: MAX_DENOMINATOR });
}

#[test]
fn try_ease_rejects_what_does_not_fit() {
    let den: u128 = MAX_EASED_DENOMINATOR + 1;
    assert_eq!(try_ease(&frac(1, den)), None);
    assert_eq!(try_ease(&frac(1, MAX_DENOMINATOR)), None);
}

#[test]
fn try_ease_rejects_malformed_fractions() {
    assert_eq!(try_ease(&Fraction { num: 0, den: 0 }), None);
    assert_eq!(try_ease(&Fraction { num: 3, den: 2 }), None);
    assert_eq!(try_ease(&Fraction { num: 1, den: u128::MAX }), None);
}
