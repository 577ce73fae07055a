use rtwrs_core::fixed::Fixed;
use rtwrs_core::fixed::SCALE;

fn fx_fixed(v: f64) -> Fixed {
    Fixed::from_raw((v * SCALE as f64).round() as i64)
}

fn val_fixed(f: Fixed) -> f64 {
    f.raw as f64 / SCALE as f64
}

#[test]
fn add_and_sub_are_exact() {
    assert_eq!(Fixed::from_int(3).add(Fixed::from_int(4)), Fixed::from_int(7));
    assert_eq!(Fixed::from_int(3).sub(Fixed::from_int(4)), Fixed::from_int(-1));
    assert_eq!(fx_fixed(0.5).add(fx_fixed(0.25)), fx_fixed(0.75));
}

#[test]
fn add_saturates_at_both_ends() {
    assert_eq!(Fixed::max_value().add(Fixed::one()), Fixed::max_value());
    assert_eq!(Fixed::min_value().sub(Fixed::one()), Fixed::min_value());
    assert_eq!(Fixed::min_value().neg(), Fixed::max_value());
}

#[test]
fn mul_rounds_toward_zero() {
    assert_eq!(Fixed::from_int(3).mul(Fixed::from_int(4)), Fixed::from_int(12));
    assert_eq!(Fixed::from_raw(1).mul(Fixed::from_raw(1)), Fixed::from_raw(0));
    assert_eq!(Fixed::from_raw(-1).mul(Fixed::from_raw(1)), Fixed::from_raw(0));
    assert_eq!(Fixed::from_raw(3).mul(fx_fixed(0.5)), Fixed::from_raw(1));
    assert_eq!(Fixed::from_raw(-3).mul(fx_fixed(0.5)), Fixed::from_raw(-1));
}

#[test]
fn mul_saturates() {
    let big = Fixed::from_int(1 << 30);
    assert_eq!(big.mul(big), Fixed::max_value());
    assert_eq!(big.mul(big.neg()), Fixed::min_value());
}

#[test]
fn div_rounds_toward_zero() {
    assert_eq!(Fixed::from_int(12).div(Fixed::from_int(4)), Fixed::from_int(3));
    assert_eq!(Fixed::from_int(1).div(Fixed::from_int(3)), Fixed::from_raw(5592405));
    assert_eq!(Fixed::from_int(-1).div(Fixed::from_int(3)), Fixed::from_raw(-5592405));
    assert_eq!(Fixed::from_int(1).div(Fixed::from_int(-3)), Fixed::from_raw(-5592405));
    assert_eq!(Fixed::from_int(-1).div(Fixed::from_int(-3)), Fixed::from_raw(5592405));
}

#[test]
fn div_by_zero_is_an_end_of_the_range() {
    assert_eq!(Fixed::one().div(Fixed::zero()), Fixed::max_value());
    assert_eq!(Fixed::one().neg().div(Fixed::zero()), Fixed::min_value());
    assert_eq!(Fixed::zero().div(Fixed::zero()), Fixed::zero());
}

#[test]
fn sqrt_of_squares_and_of_two() {
    assert_eq!(Fixed::from_int(4).sqrt(), Fixed::from_int(2));
    assert_eq!(Fixed::from_int(1).sqrt(), Fixed::from_int(1));
    assert_eq!(Fixed::from_int(0).sqrt(), Fixed::from_int(0));
    assert_eq!(Fixed::from_int(-4).sqrt(), Fixed::from_int(0));
    assert_eq!(Fixed::from_int(2).sqrt(), Fixed::from_raw(23726566));
    assert!((val_fixed(fx_fixed(0.0001).sqrt()) - 0.01).abs() < 1e-5);
}

#[test]
fn sqrt_is_the_greatest_root() {
    for raw in [1i64, 2, 3, 1000, 16777215, 16777216, 16777217, 1 << 40, i64::MAX] {
        let r = Fixed::from_raw(raw).sqrt().raw as i128;
        let n = (raw as i128) << 24;
        assert!(r * r <= n);
        assert!((r + 1) * (r + 1) > n);
    }
}

#[test]
fn ratio_and_floor() {
    assert_eq!(Fixed::ratio(1, 2), fx_fixed(0.5));
    assert_eq!(Fixed::ratio(1, 10000), Fixed::from_raw(1677));
    assert_eq!(fx_fixed(2.5).floor(), 2);
    assert_eq!(fx_fixed(-2.5).floor(), -3);
    assert_eq!(fx_fixed(-2.0).floor(), -2);
    assert_eq!(Fixed::whole(5), Fixed::from_int(5));
    assert_eq!(Fixed::whole(i64::MAX), Fixed::max_value());
}

#[test]
fn comparisons_and_extremes() {
    assert!(Fixed::zero().lt(Fixed::one()));
    assert!(Fixed::one().le(Fixed::one()));
    assert!(Fixed::one().gt(Fixed::zero()));
    assert!(Fixed::one().ge(Fixed::one()));
    assert_eq!(Fixed::one().min(Fixed::zero()), Fixed::zero());
    assert_eq!(Fixed::one().max(Fixed::zero()), Fixed::one());
    assert_eq!(fx_fixed(-1.5).abs(), fx_fixed(1.5));
}

#[test]
fn sums_and_products_commute_and_zero_and_one_are_neutral() {
    let values = [0i64, 1, -1, 5, SCALE, -SCALE, 3 * SCALE + 7, -(1 << 40), i64::MAX, i64::MIN];
    for a in values {
        let x = Fixed::from_raw(a);
        assert_eq!(x.add(Fixed::zero()), x);
        assert_eq!(x.sub(Fixed::zero()), x);
        assert_eq!(x.mul(Fixed::one()), x);
        assert_eq!(x.div(Fixed::one()), x);
        assert_eq!(x.mul(Fixed::zero()), Fixed::zero());
        if a > i64::MIN {
            assert_eq!(x.neg().neg(), x);
        }
        for b in values {
            let y = Fixed::from_raw(b);
            assert_eq!(x.add(y), y.add(x));
            assert_eq!(x.mul(y), y.mul(x));
        }
    }
}
