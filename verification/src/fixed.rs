//! Signed fixed-point scalars with 24 fractional bits and saturating arithmetic.
//!
//! A `Fixed` stands for the rational `raw / 2^24`. Sums, products and quotients
//! that leave the range of `i64` stop at its ends, a quotient by zero is the
//! end of the range on the side of the dividend (zero for `0 / 0`), and the
//! square root of a negative number is zero. No operation panics.

use vstd::prelude::*;

verus! {

/// The raw value of one.
pub const SCALE: i64 = 16777216;

/// The raw value of the circle constant, rounded down.
pub const PI_RAW: i64 = 52707178;

/// A fixed-point scalar: the rational `raw / SCALE`.
#[derive(Clone, Copy, PartialEq, Eq, Structural, Debug)]
pub struct Fixed {
    pub raw: i64,
}

/// `x` brought into the range of `i64`.
pub open spec fn saturate(x: int) -> int {
    if x < i64::MIN as int {
        i64::MIN as int
    } else if x > i64::MAX as int {
        i64::MAX as int
    } else {
        x
    }
}

/// The quotient `a / b` rounded toward zero.
pub open spec fn trunc_div(a: int, b: int) -> int
    recommends
        b != 0,
{
    if b > 0 {
        if a >= 0 {
            a / b
        } else {
            -((-a) / b)
        }
    } else {
        if a >= 0 {
            -(a / (-b))
        } else {
            (-a) / (-b)
        }
    }
}

/// `r` is the integer square root of `n`.
pub open spec fn is_int_sqrt(n: int, r: int) -> bool {
    0 <= r && r * r <= n && n < (r + 1) * (r + 1)
}

/// The integer square root of `n`: the greatest `r` with `r * r <= n`
/// (zero for a negative `n`).
pub closed spec fn int_sqrt(n: int) -> int {
    if n < 0 {
        0
    } else {
        choose|r: int| is_int_sqrt(n, r)
    }
}

proof fn lemma_square_monotonic(a: int, b: int)
    by (nonlinear_arith)
    requires
        0 <= a <= b,
    ensures
        a * a <= b * b,
{
}

/// At most one number is the integer square root of `n`.
pub proof fn lemma_int_sqrt_unique(n: int, r1: int, r2: int)
    requires
        is_int_sqrt(n, r1),
        is_int_sqrt(n, r2),
    ensures
        r1 == r2,
{
    if r1 < r2 {
        lemma_square_monotonic(r1 + 1, r2);
    } else if r2 < r1 {
        lemma_square_monotonic(r2 + 1, r1);
    }
}

/// A number that satisfies `is_int_sqrt` is the integer square root.
pub proof fn lemma_int_sqrt_is(n: int, r: int)
    requires
        is_int_sqrt(n, r),
    ensures
        int_sqrt(n) == r,
{
    assert(n >= 0) by (nonlinear_arith)
        requires
            r * r <= n,
    {
    }
    let c = choose|c: int| is_int_sqrt(n, c);
    lemma_int_sqrt_unique(n, r, c);
}

/// Rounding toward zero keeps the order of the dividends.
pub proof fn lemma_trunc_div_monotone(x: int, y: int, d: int)
    requires
        x <= y,
        0 < d,
    ensures
        trunc_div(x, d) <= trunc_div(y, d),
{
    if x >= 0 {
        vstd::arithmetic::div_mod::lemma_div_is_ordered(x, y, d);
    } else if y >= 0 {
        vstd::arithmetic::div_mod::lemma_div_pos_is_pos(-x, d);
        vstd::arithmetic::div_mod::lemma_div_pos_is_pos(y, d);
    } else {
        vstd::arithmetic::div_mod::lemma_div_is_ordered(-y, -x, d);
    }
}

/// A product keeps the order of its first factor where the second is not
/// negative, and turns it around where the second is not positive.
pub proof fn lemma_mul_monotone(a: Fixed, b: Fixed, c: Fixed)
    requires
        a.raw <= b.raw,
    ensures
        c.raw >= 0 ==> a.mul(c).raw <= b.mul(c).raw,
        c.raw <= 0 ==> a.mul(c).raw >= b.mul(c).raw,
{
    let x = a.raw as int;
    let y = b.raw as int;
    let z = c.raw as int;
    if z >= 0 {
        assert(x * z <= y * z) by (nonlinear_arith)
            requires
                x <= y,
                z >= 0,
        ;
        lemma_trunc_div_monotone(x * z, y * z, SCALE as int);
    }
    if z <= 0 {
        assert(y * z <= x * z) by (nonlinear_arith)
            requires
                x <= y,
                z <= 0,
        ;
        lemma_trunc_div_monotone(y * z, x * z, SCALE as int);
    }
}

/// Every number that is not negative has an integer square root.
pub proof fn lemma_int_sqrt_exists(n: int) -> (r: int)
    requires
        n >= 0,
    ensures
        is_int_sqrt(n, r),
    decreases n,
{
    if n == 0 {
        assert(is_int_sqrt(0, 0)) by (nonlinear_arith);
        0
    } else {
        let p = lemma_int_sqrt_exists(n - 1);
        let next = (p + 1) * (p + 1);
        if next <= n {
            assert(n < (p + 1 + 1) * (p + 1 + 1)) by (nonlinear_arith)
                requires
                    n - 1 < (p + 1) * (p + 1),
                    p >= 0,
            ;
            assert(is_int_sqrt(n, p + 1));
            p + 1
        } else {
            assert(is_int_sqrt(n, p));
            p
        }
    }
}

/// The integer square root is one.
pub proof fn lemma_int_sqrt_holds(n: int)
    requires
        n >= 0,
    ensures
        is_int_sqrt(n, int_sqrt(n)),
{
    let r = lemma_int_sqrt_exists(n);
    lemma_int_sqrt_is(n, r);
}

/// A square root is never negative.
pub proof fn lemma_sqrt_nonneg(x: Fixed)
    ensures
        x.sqrt().raw >= 0,
{
    if x.raw > 0 {
        let n = x.raw * SCALE;
        lemma_int_sqrt_holds(n);
        let r = int_sqrt(n);
        assert(r < 0x1000_0000_0000) by (nonlinear_arith)
            requires
                r >= 0,
                r * r <= n,
                n < 0x100_0000_0000_0000_0000_0000,
        ;
    }
}

/// A quotient keeps the order of its dividends where the divisor is not
/// negative.
pub proof fn lemma_div_monotone(x: Fixed, y: Fixed, d: Fixed)
    requires
        x.raw <= y.raw,
        d.raw >= 0,
    ensures
        x.div(d).raw <= y.div(d).raw,
{
    if d.raw > 0 {
        lemma_trunc_div_monotone(x.raw * SCALE, y.raw * SCALE, d.raw as int);
    }
}

/// A square is never negative.
pub proof fn lemma_square_nonneg(x: Fixed)
    ensures
        x.mul(x).raw >= 0,
{
    let v = x.raw as int;
    assert(v * v >= 0) by (nonlinear_arith);
    vstd::arithmetic::div_mod::lemma_div_pos_is_pos(v * v, SCALE as int);
}

/// Sums and products do not depend on the order of their operands.
pub proof fn sum_and_product_commute(a: Fixed, b: Fixed)
    ensures
        a.add(b) == b.add(a),
        a.mul(b) == b.mul(a),
{
    assert(a.raw * b.raw == b.raw * a.raw) by (nonlinear_arith);
}

/// Zero added, one multiplied and one divided by change nothing.
pub proof fn zero_and_one_are_neutral(a: Fixed)
    ensures
        a.add(Fixed::zero()) == a,
        a.sub(Fixed::zero()) == a,
        a.mul(Fixed::one()) == a,
        a.div(Fixed::one()) == a,
        a.mul(Fixed::zero()) == Fixed::zero(),
{
    let v = a.raw as int;
    if v >= 0 {
        vstd::arithmetic::div_mod::lemma_div_by_multiple(v, SCALE as int);
    } else {
        vstd::arithmetic::div_mod::lemma_div_by_multiple(-v, SCALE as int);
        assert(-(v * SCALE) == (-v) * SCALE) by (nonlinear_arith);
    }
    assert(v * 0 == 0) by (nonlinear_arith);
    assert(0int / (SCALE as int) == 0);
}

/// Negating twice changes nothing, but at the least scalar, which has no
/// opposite.
pub proof fn negation_undoes_itself(a: Fixed)
    requires
        a.raw > i64::MIN,
    ensures
        a.neg().neg() == a,
{
}

proof fn lemma_product_bound(a: int, b: int)
    by (nonlinear_arith)
    requires
        -0x8000_0000_0000_0000 <= a <= 0x7fff_ffff_ffff_ffff,
        -0x8000_0000_0000_0000 <= b <= 0x7fff_ffff_ffff_ffff,
    ensures
        -0x4000_0000_0000_0000_0000_0000_0000_0000 <= a * b
            <= 0x4000_0000_0000_0000_0000_0000_0000_0000,
{
    assert(a * b <= 0x8000_0000_0000_0000 * 0x8000_0000_0000_0000);
    assert(a * b >= -(0x8000_0000_0000_0000 * 0x8000_0000_0000_0000));
}

fn clamp_wide(x: i128) -> (r: i64)
    ensures
        r == saturate(x as int),
{
    if x < -0x8000_0000_0000_0000 {
        i64::MIN
    } else if x > 0x7fff_ffff_ffff_ffff {
        i64::MAX
    } else {
        x as i64
    }
}

/// The greatest `r` with `r * r <= n`, for `n` below `2^88`.
fn int_sqrt_wide(n: u128) -> (r: u128)
    requires
        n < 0x100_0000_0000_0000_0000_0000,
    ensures
        is_int_sqrt(n as int, r as int),
        r < 0x1000_0000_0000,
{
    let mut lo: u128 = 0;
    let mut hi: u128 = 0x1000_0000_0000;
    assert(0x1000_0000_0000int * 0x1000_0000_0000int == 0x100_0000_0000_0000_0000_0000int)
        by (nonlinear_arith);
    while hi - lo > 1
        invariant
            lo < hi <= 0x1000_0000_0000,
            lo * lo <= n,
            n < hi * hi,
        decreases hi - lo,
    {
        let mid: u128 = lo + (hi - lo) / 2;
        proof {
            lemma_square_monotonic(mid as int, 0x1000_0000_0000);
        }
        if mid * mid <= n {
            lo = mid;
        } else {
            hi = mid;
        }
    }
    lo
}

impl Fixed {
    /// The scalar with the given raw value.
    pub fn from_raw(raw: i64) -> (r: Fixed)
        ensures
            r.raw == raw,
    {
        Fixed { raw }
    }

    pub open spec fn zero_spec() -> Fixed {
        Fixed { raw: 0 }
    }

    /// Zero.
    #[verifier::when_used_as_spec(zero_spec)]
    pub fn zero() -> (r: Fixed)
        ensures
            r == Fixed::zero_spec(),
    {
        Fixed { raw: 0 }
    }

    pub open spec fn one_spec() -> Fixed {
        Fixed { raw: SCALE }
    }

    /// One.
    #[verifier::when_used_as_spec(one_spec)]
    pub fn one() -> (r: Fixed)
        ensures
            r == Fixed::one_spec(),
    {
        Fixed { raw: SCALE }
    }

    pub open spec fn max_value_spec() -> Fixed {
        Fixed { raw: i64::MAX }
    }

    /// The greatest scalar; it stands in for an unbounded distance.
    #[verifier::when_used_as_spec(max_value_spec)]
    pub fn max_value() -> (r: Fixed)
        ensures
            r == Fixed::max_value_spec(),
    {
        Fixed { raw: i64::MAX }
    }

    pub open spec fn min_value_spec() -> Fixed {
        Fixed { raw: i64::MIN }
    }

    /// The least scalar.
    #[verifier::when_used_as_spec(min_value_spec)]
    pub fn min_value() -> (r: Fixed)
        ensures
            r == Fixed::min_value_spec(),
    {
        Fixed { raw: i64::MIN }
    }

    pub open spec fn from_int_spec(n: i32) -> Fixed {
        Fixed { raw: (n * SCALE) as i64 }
    }

    /// The whole number `n`.
    #[verifier::when_used_as_spec(from_int_spec)]
    pub fn from_int(n: i32) -> (r: Fixed)
        ensures
            r == Fixed::from_int_spec(n),
            r.raw == n * SCALE,
    {
        let wide: i64 = n as i64;
        Fixed { raw: wide * SCALE }
    }

    pub open spec fn whole_spec(n: i64) -> Fixed {
        Fixed { raw: saturate(n * SCALE) as i64 }
    }

    /// The whole number `n`, saturating.
    #[verifier::when_used_as_spec(whole_spec)]
    pub fn whole(n: i64) -> (r: Fixed)
        ensures
            r == Fixed::whole_spec(n),
    {
        Fixed { raw: clamp_wide((n as i128) * 16777216) }
    }

    pub open spec fn add_spec(self, rhs: Fixed) -> Fixed {
        Fixed { raw: saturate(self.raw + rhs.raw) as i64 }
    }

    /// The saturating sum.
    #[verifier::when_used_as_spec(add_spec)]
    pub fn add(self, rhs: Fixed) -> (r: Fixed)
        ensures
            r == self.add_spec(rhs),
    {
        Fixed { raw: clamp_wide(self.raw as i128 + rhs.raw as i128) }
    }

    pub open spec fn sub_spec(self, rhs: Fixed) -> Fixed {
        Fixed { raw: saturate(self.raw - rhs.raw) as i64 }
    }

    /// The saturating difference.
    #[verifier::when_used_as_spec(sub_spec)]
    pub fn sub(self, rhs: Fixed) -> (r: Fixed)
        ensures
            r == self.sub_spec(rhs),
    {
        Fixed { raw: clamp_wide(self.raw as i128 - rhs.raw as i128) }
    }

    pub open spec fn neg_spec(self) -> Fixed {
        Fixed { raw: saturate(-(self.raw as int)) as i64 }
    }

    /// The saturating negation.
    #[verifier::when_used_as_spec(neg_spec)]
    pub fn neg(self) -> (r: Fixed)
        ensures
            r == self.neg_spec(),
    {
        Fixed { raw: clamp_wide(-(self.raw as i128)) }
    }

    pub open spec fn abs_spec(self) -> Fixed {
        if self.raw < 0 {
            self.neg_spec()
        } else {
            self
        }
    }

    /// The absolute value, saturating at the greatest scalar.
    #[verifier::when_used_as_spec(abs_spec)]
    pub fn abs(self) -> (r: Fixed)
        ensures
            r == self.abs_spec(),
            r.raw >= 0,
    {
        if self.raw < 0 {
            self.neg()
        } else {
            self
        }
    }

    pub open spec fn mul_spec(self, rhs: Fixed) -> Fixed {
        Fixed { raw: saturate(trunc_div(self.raw * rhs.raw, SCALE as int)) as i64 }
    }

    /// The product, rounded toward zero and saturating.
    #[verifier::when_used_as_spec(mul_spec)]
    pub fn mul(self, rhs: Fixed) -> (r: Fixed)
        ensures
            r == self.mul_spec(rhs),
    {
        let a: i128 = self.raw as i128;
        let b: i128 = rhs.raw as i128;
        proof {
            lemma_product_bound(a as int, b as int);
        }
        let p: i128 = a * b;
        let q: i128 = p / 16777216;
        Fixed { raw: clamp_wide(q) }
    }

    pub open spec fn div_spec(self, rhs: Fixed) -> Fixed {
        if rhs.raw == 0 {
            if self.raw > 0 {
                Fixed::max_value_spec()
            } else if self.raw < 0 {
                Fixed::min_value_spec()
            } else {
                Fixed::zero_spec()
            }
        } else {
            Fixed { raw: saturate(trunc_div(self.raw * SCALE, rhs.raw as int)) as i64 }
        }
    }

    /// The quotient, rounded toward zero and saturating. A quotient by zero is
    /// the end of the range on the side of the dividend, and zero for `0 / 0`.
    #[verifier::when_used_as_spec(div_spec)]
    pub fn div(self, rhs: Fixed) -> (r: Fixed)
        ensures
            r == self.div_spec(rhs),
    {
        if rhs.raw == 0 {
            if self.raw > 0 {
                Fixed::max_value()
            } else if self.raw < 0 {
                Fixed::min_value()
            } else {
                Fixed::zero()
            }
        } else {
            let n: i128 = (self.raw as i128) * 16777216;
            let d: i128 = rhs.raw as i128;
            let q: i128 = if d < 0 {
                (-n) / (-d)
            } else {
                n / d
            };
            Fixed { raw: clamp_wide(q) }
        }
    }

    pub open spec fn sqrt_spec(self) -> Fixed {
        if self.raw <= 0 {
            Fixed::zero_spec()
        } else {
            Fixed { raw: int_sqrt(self.raw * SCALE) as i64 }
        }
    }

    /// The square root, rounded down; zero for a negative scalar.
    #[verifier::when_used_as_spec(sqrt_spec)]
    pub fn sqrt(self) -> (r: Fixed)
        ensures
            r == self.sqrt_spec(),
            r.raw >= 0,
            self.raw > 0 ==> is_int_sqrt(self.raw * SCALE, r.raw as int),
    {
        if self.raw <= 0 {
            Fixed::zero()
        } else {
            let n: u128 = (self.raw as u128) * 16777216;
            let root: u128 = int_sqrt_wide(n);
            proof {
                lemma_int_sqrt_is(n as int, root as int);
            }
            Fixed { raw: root as i64 }
        }
    }

    pub open spec fn lt_spec(self, rhs: Fixed) -> bool {
        self.raw < rhs.raw
    }

    /// Whether `self` is below `rhs`.
    #[verifier::when_used_as_spec(lt_spec)]
    pub fn lt(self, rhs: Fixed) -> (b: bool)
        ensures
            b == self.lt_spec(rhs),
    {
        self.raw < rhs.raw
    }

    pub open spec fn le_spec(self, rhs: Fixed) -> bool {
        self.raw <= rhs.raw
    }

    /// Whether `self` is at most `rhs`.
    #[verifier::when_used_as_spec(le_spec)]
    pub fn le(self, rhs: Fixed) -> (b: bool)
        ensures
            b == self.le_spec(rhs),
    {
        self.raw <= rhs.raw
    }

    pub open spec fn gt_spec(self, rhs: Fixed) -> bool {
        self.raw > rhs.raw
    }

    /// Whether `self` is above `rhs`.
    #[verifier::when_used_as_spec(gt_spec)]
    pub fn gt(self, rhs: Fixed) -> (b: bool)
        ensures
            b == self.gt_spec(rhs),
    {
        self.raw > rhs.raw
    }

    pub open spec fn ge_spec(self, rhs: Fixed) -> bool {
        self.raw >= rhs.raw
    }

    /// Whether `self` is at least `rhs`.
    #[verifier::when_used_as_spec(ge_spec)]
    pub fn ge(self, rhs: Fixed) -> (b: bool)
        ensures
            b == self.ge_spec(rhs),
    {
        self.raw >= rhs.raw
    }

    pub open spec fn min_spec(self, rhs: Fixed) -> Fixed {
        if self.raw < rhs.raw {
            self
        } else {
            rhs
        }
    }

    /// The lesser of the two.
    #[verifier::when_used_as_spec(min_spec)]
    pub fn min(self, rhs: Fixed) -> (r: Fixed)
        ensures
            r == self.min_spec(rhs),
    {
        if self.raw < rhs.raw {
            self
        } else {
            rhs
        }
    }

    pub open spec fn max_spec(self, rhs: Fixed) -> Fixed {
        if self.raw > rhs.raw {
            self
        } else {
            rhs
        }
    }

    /// The greater of the two.
    #[verifier::when_used_as_spec(max_spec)]
    pub fn max(self, rhs: Fixed) -> (r: Fixed)
        ensures
            r == self.max_spec(rhs),
    {
        if self.raw > rhs.raw {
            self
        } else {
            rhs
        }
    }

    pub open spec fn ratio_spec(num: i64, den: i64) -> Fixed {
        Fixed { raw: num }.div_spec(Fixed { raw: den })
    }

    /// The fraction `num / den`, rounded toward zero.
    #[verifier::when_used_as_spec(ratio_spec)]
    pub fn ratio(num: i64, den: i64) -> (r: Fixed)
        ensures
            r == Fixed::ratio_spec(num, den),
    {
        Fixed { raw: num }.div(Fixed { raw: den })
    }

    pub open spec fn floor_spec(self) -> i64 {
        ((self.raw as int) / (SCALE as int)) as i64
    }

    /// The greatest whole number at most `self`.
    #[verifier::when_used_as_spec(floor_spec)]
    pub fn floor(self) -> (n: i64)
        ensures
            n == self.floor_spec(),
            n * SCALE <= self.raw < (n + 1) * SCALE,
    {
        let q: i64 = self.raw / SCALE;
        let rem: i64 = self.raw % SCALE;
        if rem < 0 {
            q - 1
        } else {
            q
        }
    }
}

} // verus!
