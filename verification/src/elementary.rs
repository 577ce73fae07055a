//! Elementary functions on fixed-point scalars: sine, cosine and tangent, the
//! arc tangent of a quotient, the arc sine and the natural logarithm.
//!
//! Each is a fixed sequence of fixed-point operations (a range reduction and a
//! polynomial), so that its result is an exact function of its argument.

use vstd::prelude::*;
use crate::fixed::Fixed;
use crate::fixed::SCALE;
use crate::fixed::PI_RAW;

verus! {

/// The raw value of a full turn.
pub const TWO_PI_RAW: i64 = 105414357;

/// The raw value of a quarter turn.
pub const HALF_PI_RAW: i64 = 26353589;

/// The raw value of the natural logarithm of two.
pub const LN2_RAW: i64 = 11629080;

/// The coefficients of the arc tangent polynomial, as raw values, by the power
/// of the argument that each belongs to.
pub const ATAN_C2: i64 = -5592374;

pub const ATAN_C4: i64 = 3354361;

pub const ATAN_C6: i64 = -2383858;

pub const ATAN_C8: i64 = 1787824;

pub const ATAN_C10: i64 = -1263151;

pub const ATAN_C12: i64 = 719904;

pub const ATAN_C14: i64 = -271216;

pub const ATAN_C16: i64 = 48087;

/// The angle in `[-pi/2, pi/2]` that has the sine of `x`: `x` is brought into
/// one turn, and the second and third quadrants are mirrored onto the first
/// and fourth.
pub open spec fn fold_angle_spec(x: Fixed) -> Fixed {
    let turn = (x.raw as int) % (TWO_PI_RAW as int);
    let half = if turn > PI_RAW {
        turn - TWO_PI_RAW
    } else {
        turn
    };
    let folded = if half > HALF_PI_RAW {
        PI_RAW - half
    } else if half < -HALF_PI_RAW {
        -PI_RAW - half
    } else {
        half
    };
    Fixed { raw: folded as i64 }
}

#[verifier::when_used_as_spec(fold_angle_spec)]
pub fn fold_angle(x: Fixed) -> (r: Fixed)
    ensures
        r == fold_angle_spec(x),
        -HALF_PI_RAW <= r.raw <= HALF_PI_RAW,
{
    let rem: i64 = x.raw % TWO_PI_RAW;
    let turn: i64 = if rem < 0 {
        rem + TWO_PI_RAW
    } else {
        rem
    };
    let half: i64 = if turn > PI_RAW {
        turn - TWO_PI_RAW
    } else {
        turn
    };
    let folded: i64 = if half > HALF_PI_RAW {
        PI_RAW - half
    } else if half < -HALF_PI_RAW {
        -PI_RAW - half
    } else {
        half
    };
    Fixed { raw: folded }
}

/// `1 - (x2 / n) * t`: one step of the nested form of a power series in `x2`.
pub open spec fn series_step_spec(x2: Fixed, n: i32, t: Fixed) -> Fixed {
    Fixed::one().sub(x2.div(Fixed::from_int(n)).mul(t))
}

#[verifier::when_used_as_spec(series_step_spec)]
pub fn series_step(x2: Fixed, n: i32, t: Fixed) -> (r: Fixed)
    ensures
        r == series_step_spec(x2, n, t),
{
    Fixed::one().sub(x2.div(Fixed::from_int(n)).mul(t))
}

/// `v` brought into the range from minus one to one.
pub open spec fn clamp_unit_spec(v: Fixed) -> Fixed {
    if v.raw > SCALE {
        Fixed::one()
    } else if v.raw < -SCALE {
        Fixed::one().neg()
    } else {
        v
    }
}

#[verifier::when_used_as_spec(clamp_unit_spec)]
pub fn clamp_unit(v: Fixed) -> (r: Fixed)
    ensures
        r == clamp_unit_spec(v),
        -SCALE <= r.raw <= SCALE,
{
    if v.raw > SCALE {
        Fixed::one()
    } else if v.raw < -SCALE {
        Fixed::one().neg()
    } else {
        v
    }
}

/// The sine of `x` radians: with `a` the folded angle, the series
/// `a - a^3/3! + a^5/5! - ... - a^11/11!` in nested form, kept within one.
pub open spec fn sin_spec(x: Fixed) -> Fixed {
    let a = fold_angle(x);
    let a2 = a.mul(a);
    let t5 = series_step(a2, 110, Fixed::one());
    let t4 = series_step(a2, 72, t5);
    let t3 = series_step(a2, 42, t4);
    let t2 = series_step(a2, 20, t3);
    let t1 = series_step(a2, 6, t2);
    clamp_unit(a.mul(t1))
}

#[verifier::when_used_as_spec(sin_spec)]
pub fn sin(x: Fixed) -> (r: Fixed)
    ensures
        r == sin_spec(x),
        -SCALE <= r.raw <= SCALE,
{
    let a = fold_angle(x);
    let a2 = a.mul(a);
    let t5 = series_step(a2, 110, Fixed::one());
    let t4 = series_step(a2, 72, t5);
    let t3 = series_step(a2, 42, t4);
    let t2 = series_step(a2, 20, t3);
    let t1 = series_step(a2, 6, t2);
    clamp_unit(a.mul(t1))
}

/// The cosine of `x` radians: the sine a quarter turn on.
pub open spec fn cos_spec(x: Fixed) -> Fixed {
    sin(x.add(Fixed { raw: HALF_PI_RAW }))
}

#[verifier::when_used_as_spec(cos_spec)]
pub fn cos(x: Fixed) -> (r: Fixed)
    ensures
        r == cos_spec(x),
        -SCALE <= r.raw <= SCALE,
{
    sin(x.add(Fixed { raw: HALF_PI_RAW }))
}

/// The tangent of `x` radians: sine over cosine.
pub open spec fn tan_spec(x: Fixed) -> Fixed {
    sin(x).div(cos(x))
}

#[verifier::when_used_as_spec(tan_spec)]
pub fn tan(x: Fixed) -> (r: Fixed)
    ensures
        r == tan_spec(x),
{
    sin(x).div(cos(x))
}

/// `angle` degrees in radians.
pub open spec fn radians_spec(angle: Fixed) -> Fixed {
    angle.mul(Fixed { raw: PI_RAW }).div(Fixed::from_int(180))
}

#[verifier::when_used_as_spec(radians_spec)]
pub fn radians(angle: Fixed) -> (r: Fixed)
    ensures
        r == radians_spec(angle),
{
    angle.mul(Fixed { raw: PI_RAW }).div(Fixed::from_int(180))
}

/// `c + z2 * t`: one step of the nested form of a polynomial in `z2`.
pub open spec fn poly_step_spec(c: i64, z2: Fixed, t: Fixed) -> Fixed {
    Fixed { raw: c }.add(z2.mul(t))
}

#[verifier::when_used_as_spec(poly_step_spec)]
pub fn poly_step(c: i64, z2: Fixed, t: Fixed) -> (r: Fixed)
    ensures
        r == poly_step_spec(c, z2, t),
{
    Fixed { raw: c }.add(z2.mul(t))
}

/// The arc tangent of `z` for `z` between zero and one: `z` times an even
/// polynomial of degree sixteen.
pub open spec fn atan_unit_spec(z: Fixed) -> Fixed {
    let z2 = z.mul(z);
    let t8 = Fixed { raw: ATAN_C16 };
    let t7 = poly_step(ATAN_C14, z2, t8);
    let t6 = poly_step(ATAN_C12, z2, t7);
    let t5 = poly_step(ATAN_C10, z2, t6);
    let t4 = poly_step(ATAN_C8, z2, t5);
    let t3 = poly_step(ATAN_C6, z2, t4);
    let t2 = poly_step(ATAN_C4, z2, t3);
    let t1 = poly_step(ATAN_C2, z2, t2);
    let t0 = poly_step(SCALE, z2, t1);
    z.mul(t0)
}

#[verifier::when_used_as_spec(atan_unit_spec)]
pub fn atan_unit(z: Fixed) -> (r: Fixed)
    ensures
        r == atan_unit_spec(z),
{
    let z2 = z.mul(z);
    let t8 = Fixed { raw: ATAN_C16 };
    let t7 = poly_step(ATAN_C14, z2, t8);
    let t6 = poly_step(ATAN_C12, z2, t7);
    let t5 = poly_step(ATAN_C10, z2, t6);
    let t4 = poly_step(ATAN_C8, z2, t5);
    let t3 = poly_step(ATAN_C6, z2, t4);
    let t2 = poly_step(ATAN_C4, z2, t3);
    let t1 = poly_step(ATAN_C2, z2, t2);
    let t0 = poly_step(SCALE, z2, t1);
    z.mul(t0)
}

/// The angle of the point `(x, y)`, between minus and plus a half turn, and
/// zero at the origin. The arc tangent of the lesser of `|x|`, `|y|` over the
/// greater is taken, then moved to the octant and quadrant of the point.
pub open spec fn atan2_spec(y: Fixed, x: Fixed) -> Fixed {
    let ax = x.abs();
    let ay = y.abs();
    if ax.raw == 0 && ay.raw == 0 {
        Fixed::zero()
    } else {
        let octant = if ay.raw > ax.raw {
            Fixed { raw: HALF_PI_RAW }.sub(atan_unit(ax.div(ay)))
        } else {
            atan_unit(ay.div(ax))
        };
        let half = if x.raw < 0 {
            Fixed { raw: PI_RAW }.sub(octant)
        } else {
            octant
        };
        if y.raw < 0 {
            half.neg()
        } else {
            half
        }
    }
}

#[verifier::when_used_as_spec(atan2_spec)]
pub fn atan2(y: Fixed, x: Fixed) -> (r: Fixed)
    ensures
        r == atan2_spec(y, x),
{
    let ax = x.abs();
    let ay = y.abs();
    if ax.raw == 0 && ay.raw == 0 {
        Fixed::zero()
    } else {
        let octant = if ay.raw > ax.raw {
            Fixed { raw: HALF_PI_RAW }.sub(atan_unit(ax.div(ay)))
        } else {
            atan_unit(ay.div(ax))
        };
        let half = if x.raw < 0 {
            Fixed { raw: PI_RAW }.sub(octant)
        } else {
            octant
        };
        if y.raw < 0 {
            half.neg()
        } else {
            half
        }
    }
}

/// The arc sine of `y`, with `y` kept within one: the angle of the point
/// `(sqrt(1 - y^2), y)`.
pub open spec fn asin_spec(y: Fixed) -> Fixed {
    let c = clamp_unit(y);
    atan2(c, Fixed::one().sub(c.mul(c)).sqrt())
}

#[verifier::when_used_as_spec(asin_spec)]
pub fn asin(y: Fixed) -> (r: Fixed)
    ensures
        r == asin_spec(y),
{
    let c = clamp_unit(y);
    atan2(c, Fixed::one().sub(c.mul(c)).sqrt())
}

/// `m` doubled while it is below one, at most `steps` times, with the number
/// of doublings taken from `e`.
pub open spec fn raise(m: int, e: int, steps: nat) -> (int, int)
    decreases steps,
{
    if steps == 0 || m >= SCALE {
        (m, e)
    } else {
        raise(2 * m, e - 1, (steps - 1) as nat)
    }
}

/// `m` halved while it is two or more, at most `steps` times, with the number
/// of halvings added to `e`.
pub open spec fn lower(m: int, e: int, steps: nat) -> (int, int)
    decreases steps,
{
    if steps == 0 || m < 2 * SCALE {
        (m, e)
    } else {
        lower(m / 2, e + 1, (steps - 1) as nat)
    }
}

/// The mantissa and the binary exponent of a positive raw value: the value
/// doubled up to 24 times and then halved up to 39 times, which brings every
/// positive raw value into `[1, 2)`.
pub open spec fn normalize(raw: int) -> (int, int) {
    let up = raise(raw, 0, 24);
    lower(up.0, up.1, 39)
}

/// The natural logarithm of a scalar in `[1, 2)`: with `s = (m - 1) / (m + 1)`,
/// twice the series `s + s^3/3 + ... + s^11/11`.
pub open spec fn ln_mantissa_spec(m: Fixed) -> Fixed {
    let s = m.sub(Fixed::one()).div(m.add(Fixed::one()));
    let s2 = s.mul(s);
    let t5 = Fixed::ratio(1, 11);
    let t4 = Fixed::ratio(1, 9).add(s2.mul(t5));
    let t3 = Fixed::ratio(1, 7).add(s2.mul(t4));
    let t2 = Fixed::ratio(1, 5).add(s2.mul(t3));
    let t1 = Fixed::ratio(1, 3).add(s2.mul(t2));
    let t0 = Fixed::one().add(s2.mul(t1));
    Fixed::from_int(2).mul(s.mul(t0))
}

#[verifier::when_used_as_spec(ln_mantissa_spec)]
pub fn ln_mantissa(m: Fixed) -> (r: Fixed)
    ensures
        r == ln_mantissa_spec(m),
{
    let s = m.sub(Fixed::one()).div(m.add(Fixed::one()));
    let s2 = s.mul(s);
    let t5 = Fixed::ratio(1, 11);
    let t4 = Fixed::ratio(1, 9).add(s2.mul(t5));
    let t3 = Fixed::ratio(1, 7).add(s2.mul(t4));
    let t2 = Fixed::ratio(1, 5).add(s2.mul(t3));
    let t1 = Fixed::ratio(1, 3).add(s2.mul(t2));
    let t0 = Fixed::one().add(s2.mul(t1));
    Fixed::from_int(2).mul(s.mul(t0))
}

/// The natural logarithm of `x`: the binary exponent times the logarithm of
/// two, plus the logarithm of the mantissa. The logarithm of zero is the least
/// scalar, and that of a negative scalar is zero.
pub open spec fn ln_spec(x: Fixed) -> Fixed {
    if x.raw < 0 {
        Fixed::zero()
    } else if x.raw == 0 {
        Fixed::min_value()
    } else {
        let parts = normalize(x.raw as int);
        Fixed { raw: (parts.1 * LN2_RAW) as i64 }.add(ln_mantissa(Fixed { raw: parts.0 as i64 }))
    }
}

#[verifier::when_used_as_spec(ln_spec)]
pub fn ln(x: Fixed) -> (r: Fixed)
    ensures
        r == ln_spec(x),
{
    if x.raw < 0 {
        Fixed::zero()
    } else if x.raw == 0 {
        Fixed::min_value()
    } else {
        let mut m: i64 = x.raw;
        let mut e: i64 = 0;
        let mut steps: u32 = 24;
        while steps > 0 && m < SCALE
            invariant
                0 < m < 2 * SCALE || m == x.raw,
                0 < m,
                steps <= 24,
                e == steps - 24,
                raise(x.raw as int, 0, 24) == raise(m as int, e as int, steps as nat),
            decreases steps,
        {
            m = 2 * m;
            e = e - 1;
            steps = steps - 1;
        }
        let ghost up = (m, e);
        let mut steps: u32 = 39;
        while steps > 0 && m >= 2 * SCALE
            invariant
                0 < m,
                steps <= 39,
                -24 <= e <= 39 - steps,
                raise(x.raw as int, 0, 24) == (up.0 as int, up.1 as int),
                lower(up.0 as int, up.1 as int, 39) == lower(m as int, e as int, steps as nat),
            decreases steps,
        {
            m = m / 2;
            e = e + 1;
            steps = steps - 1;
        }
        Fixed { raw: e * LN2_RAW }.add(ln_mantissa(Fixed { raw: m }))
    }
}

} // verus!
