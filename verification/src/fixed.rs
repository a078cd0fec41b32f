//! Saturating decimal fixed-point numbers.
//!
//! A [`Fixed`] holds a signed count of millionths. Every operation is total:
//! a result outside the range of `i64` is replaced by the nearest end of that
//! range, and products and quotients are rounded toward zero.

use vstd::prelude::*;

verus! {

/// Raw units per whole unit: six decimal places.
pub const SCALE: i64 = 1_000_000;

/// The raw value nearest to `v` that a [`Fixed`] can hold.
pub open spec fn sat(v: int) -> int {
    if v < i64::MIN {
        i64::MIN as int
    } else if v > i64::MAX {
        i64::MAX as int
    } else {
        v
    }
}

/// Quotient rounded toward zero, for a divisor other than zero.
pub open spec fn quot(a: int, b: int) -> int {
    if a >= 0 {
        if b > 0 {
            a / b
        } else {
            -(a / (-b))
        }
    } else {
        if b > 0 {
            -((-a) / b)
        } else {
            (-a) / (-b)
        }
    }
}

/// `r` is the integer square root of a natural number `n`.
pub open spec fn is_isqrt(r: int, n: int) -> bool {
    0 <= r && r * r <= n < (r + 1) * (r + 1)
}

/// Integer square root, rounded down; zero for a negative number.
pub open spec fn isqrt(n: int) -> int {
    if n < 0 {
        0
    } else {
        choose|r: int| is_isqrt(r, n)
    }
}

/// A natural number has exactly one integer square root.
pub proof fn lemma_isqrt_unique(r: int, n: int)
    requires
        is_isqrt(r, n),
    ensures
        isqrt(n) == r,
{
    assert(n >= 0) by (nonlinear_arith)
        requires
            r * r <= n,
    ;
    let c = choose|c: int| is_isqrt(c, n);
    assert(is_isqrt(c, n));
    assert(c == r) by (nonlinear_arith)
        requires
            0 <= r,
            r * r <= n,
            n < (r + 1) * (r + 1),
            0 <= c,
            c * c <= n,
            n < (c + 1) * (c + 1),
    ;
}

/// A signed fixed-point number with six decimal places.
#[derive(Clone, Copy, Debug, PartialEq, Eq, Structural)]
pub struct Fixed {
    /// The value in millionths.
    pub raw: i64,
}

fn saturate(v: i128) -> (r: i64)
    ensures
        r == sat(v as int),
{
    if v < i64::MIN as i128 {
        i64::MIN
    } else if v > i64::MAX as i128 {
        i64::MAX
    } else {
        v as i64
    }
}

fn quotient(a: i128, b: i128) -> (r: i128)
    requires
        b != 0,
        a > i128::MIN,
        b > i128::MIN,
    ensures
        r == quot(a as int, b as int),
{
    let na: i128 = if a < 0 { -a } else { a };
    let nb: i128 = if b < 0 { -b } else { b };
    let q: i128 = na / nb;
    if (a < 0) != (b < 0) {
        -q
    } else {
        q
    }
}

/// Integer square root by bisection, for `0 <= n < 2^84`.
fn root(n: i128) -> (r: i128)
    requires
        0 <= n < 0x10_0000_0000_0000_0000_0000,
    ensures
        is_isqrt(r as int, n as int),
        r < 0x400_0000_0000,
{
    let mut lo: i128 = 0;
    let mut hi: i128 = 0x400_0000_0000;
    assert(0x400_0000_0000int * 0x400_0000_0000int == 0x10_0000_0000_0000_0000_0000int)
        by (nonlinear_arith);
    while hi - lo > 1
        invariant
            0 <= lo < hi <= 0x400_0000_0000,
            lo * lo <= n < hi * hi,
        decreases hi - lo,
    {
        let mid: i128 = lo + (hi - lo) / 2;
        assert(0 <= mid * mid <= 0x400_0000_0000 * 0x400_0000_0000) by (nonlinear_arith)
            requires
                0 <= mid <= 0x400_0000_0000,
        ;
        if mid * mid <= n {
            lo = mid;
        } else {
            hi = mid;
        }
    }
    lo
}

impl Fixed {
    /// The number zero.
    pub open spec fn zero_spec() -> Fixed {
        Fixed { raw: 0 }
    }

    /// The number one.
    pub open spec fn one_spec() -> Fixed {
        Fixed { raw: SCALE }
    }

    /// The whole number `v`, saturated.
    pub open spec fn from_int_spec(v: i64) -> Fixed {
        Fixed { raw: sat(v * SCALE) as i64 }
    }

    /// Saturating sum.
    pub open spec fn add_spec(self, rhs: Fixed) -> Fixed {
        Fixed { raw: sat(self.raw + rhs.raw) as i64 }
    }

    /// Saturating difference.
    pub open spec fn sub_spec(self, rhs: Fixed) -> Fixed {
        Fixed { raw: sat(self.raw - rhs.raw) as i64 }
    }

    /// Saturating negation.
    pub open spec fn neg_spec(self) -> Fixed {
        Fixed { raw: sat(-self.raw) as i64 }
    }

    /// Saturating absolute value.
    pub open spec fn abs_spec(self) -> Fixed {
        if self.raw < 0 {
            self.neg_spec()
        } else {
            self
        }
    }

    /// Saturating product, rounded toward zero.
    pub open spec fn mul_spec(self, rhs: Fixed) -> Fixed {
        Fixed { raw: sat(quot(self.raw * rhs.raw, SCALE as int)) as i64 }
    }

    /// Saturating quotient, rounded toward zero. Dividing by zero gives the
    /// end of the range on the dividend's side, and zero for zero.
    pub open spec fn div_spec(self, rhs: Fixed) -> Fixed {
        if rhs.raw == 0 {
            if self.raw > 0 {
                Fixed { raw: i64::MAX }
            } else if self.raw < 0 {
                Fixed { raw: i64::MIN }
            } else {
                self
            }
        } else {
            Fixed { raw: sat(quot(self.raw * SCALE, rhs.raw as int)) as i64 }
        }
    }

    /// The smaller of two numbers.
    pub open spec fn min_spec(self, rhs: Fixed) -> Fixed {
        if rhs.raw < self.raw {
            rhs
        } else {
            self
        }
    }

    /// The larger of two numbers.
    pub open spec fn max_spec(self, rhs: Fixed) -> Fixed {
        if rhs.raw > self.raw {
            rhs
        } else {
            self
        }
    }

    /// Square root rounded down; zero for a negative number.
    pub open spec fn sqrt_spec(self) -> Fixed {
        Fixed { raw: isqrt(self.raw * SCALE) as i64 }
    }

    /// The whole part, rounded toward zero and saturated to `i32`.
    pub open spec fn trunc_spec(self) -> i32 {
        let q = quot(self.raw as int, SCALE as int);
        if q < i32::MIN {
            i32::MIN
        } else if q > i32::MAX {
            i32::MAX
        } else {
            q as i32
        }
    }

    /// The nearest whole number, halves away from zero, saturated.
    pub open spec fn round_spec(self) -> Fixed {
        if self.raw >= 0 {
            Fixed { raw: sat((self.raw + SCALE / 2) / (SCALE as int) * SCALE) as i64 }
        } else {
            Fixed { raw: sat(-((-self.raw + SCALE / 2) / (SCALE as int) * SCALE)) as i64 }
        }
    }

    /// The quotient of two counts, rounded down and saturated. With a
    /// divisor of zero it is the top of the range, and zero for zero.
    pub open spec fn ratio_spec(num: u64, den: u64) -> Fixed {
        if den == 0 {
            if num > 0 {
                Fixed { raw: i64::MAX }
            } else {
                Fixed { raw: 0 }
            }
        } else {
            Fixed { raw: sat(num * SCALE / (den as int)) as i64 }
        }
    }

    /// Wraps a count of millionths.
    pub fn from_raw(raw: i64) -> (r: Fixed)
        ensures
            r.raw == raw,
    {
        Fixed { raw }
    }

    #[verifier::when_used_as_spec(zero_spec)]
    pub fn zero() -> (r: Fixed)
        ensures
            r == Fixed::zero_spec(),
    {
        Fixed { raw: 0 }
    }

    #[verifier::when_used_as_spec(one_spec)]
    pub fn one() -> (r: Fixed)
        ensures
            r == Fixed::one_spec(),
    {
        Fixed { raw: SCALE }
    }

    #[verifier::when_used_as_spec(from_int_spec)]
    pub fn from_int(v: i64) -> (r: Fixed)
        ensures
            r == Fixed::from_int_spec(v),
    {
        let w: i128 = v as i128;
        assert(SCALE == 1_000_000);
        Fixed { raw: saturate(w * 1_000_000) }
    }

    #[verifier::when_used_as_spec(add_spec)]
    pub fn add(self, rhs: Fixed) -> (r: Fixed)
        ensures
            r == self.add_spec(rhs),
    {
        Fixed { raw: saturate(self.raw as i128 + rhs.raw as i128) }
    }

    #[verifier::when_used_as_spec(sub_spec)]
    pub fn sub(self, rhs: Fixed) -> (r: Fixed)
        ensures
            r == self.sub_spec(rhs),
    {
        Fixed { raw: saturate(self.raw as i128 - rhs.raw as i128) }
    }

    #[verifier::when_used_as_spec(neg_spec)]
    pub fn neg(self) -> (r: Fixed)
        ensures
            r == self.neg_spec(),
    {
        Fixed { raw: saturate(-(self.raw as i128)) }
    }

    #[verifier::when_used_as_spec(abs_spec)]
    pub fn abs(self) -> (r: Fixed)
        ensures
            r == self.abs_spec(),
    {
        if self.raw < 0 {
            self.neg()
        } else {
            self
        }
    }

    #[verifier::when_used_as_spec(mul_spec)]
    pub fn mul(self, rhs: Fixed) -> (r: Fixed)
        ensures
            r == self.mul_spec(rhs),
    {
        let a: i128 = self.raw as i128;
        let b: i128 = rhs.raw as i128;
        assert(-0x4000_0000_0000_0000_0000_0000_0000_0000 <= a * b
            <= 0x4000_0000_0000_0000_0000_0000_0000_0000) by (nonlinear_arith)
            requires
                -0x8000_0000_0000_0000 <= a <= 0x8000_0000_0000_0000,
                -0x8000_0000_0000_0000 <= b <= 0x8000_0000_0000_0000,
        ;
        Fixed { raw: saturate(quotient(a * b, SCALE as i128)) }
    }

    #[verifier::when_used_as_spec(div_spec)]
    pub fn div(self, rhs: Fixed) -> (r: Fixed)
        ensures
            r == self.div_spec(rhs),
    {
        if rhs.raw == 0 {
            if self.raw > 0 {
                Fixed { raw: i64::MAX }
            } else if self.raw < 0 {
                Fixed { raw: i64::MIN }
            } else {
                self
            }
        } else {
            let a: i128 = self.raw as i128;
            assert(SCALE == 1_000_000);
            Fixed { raw: saturate(quotient(a * 1_000_000, rhs.raw as i128)) }
        }
    }

    #[verifier::when_used_as_spec(min_spec)]
    pub fn min(self, rhs: Fixed) -> (r: Fixed)
        ensures
            r == self.min_spec(rhs),
    {
        if rhs.raw < self.raw {
            rhs
        } else {
            self
        }
    }

    #[verifier::when_used_as_spec(max_spec)]
    pub fn max(self, rhs: Fixed) -> (r: Fixed)
        ensures
            r == self.max_spec(rhs),
    {
        if rhs.raw > self.raw {
            rhs
        } else {
            self
        }
    }

    #[verifier::when_used_as_spec(sqrt_spec)]
    pub fn sqrt(self) -> (r: Fixed)
        ensures
            r == self.sqrt_spec(),
    {
        if self.raw < 0 {
            Fixed { raw: 0 }
        } else {
            let a: i128 = self.raw as i128;
            assert(SCALE == 1_000_000);
            let n: i128 = a * 1_000_000;
            let r: i128 = root(n);
            proof {
                lemma_isqrt_unique(r as int, n as int);
            }
            Fixed { raw: r as i64 }
        }
    }

    /// The whole part as an integer: the fraction is dropped, and a value
    /// outside the range of `i32` gives the nearest end of it.
    #[verifier::when_used_as_spec(trunc_spec)]
    pub fn trunc(self) -> (r: i32)
        ensures
            r == self.trunc_spec(),
    {
        assert(SCALE == 1_000_000);
        let q: i128 = quotient(self.raw as i128, 1_000_000);
        if q < i32::MIN as i128 {
            i32::MIN
        } else if q > i32::MAX as i128 {
            i32::MAX
        } else {
            q as i32
        }
    }

    /// Rounds to the nearest whole number, halves away from zero.
    #[verifier::when_used_as_spec(round_spec)]
    pub fn round(self) -> (r: Fixed)
        ensures
            r == self.round_spec(),
    {
        assert(SCALE == 1_000_000);
        let a: i128 = self.raw as i128;
        if a >= 0 {
            Fixed { raw: saturate((a + 500_000) / 1_000_000 * 1_000_000) }
        } else {
            Fixed { raw: saturate(-((-a + 500_000) / 1_000_000 * 1_000_000)) }
        }
    }

    /// Divides one count by another.
    #[verifier::when_used_as_spec(ratio_spec)]
    pub fn ratio(num: u64, den: u64) -> (r: Fixed)
        ensures
            r == Fixed::ratio_spec(num, den),
    {
        if den == 0 {
            if num > 0 {
                Fixed { raw: i64::MAX }
            } else {
                Fixed { raw: 0 }
            }
        } else {
            assert(SCALE == 1_000_000);
            let n: i128 = num as i128;
            let q: i128 = n * 1_000_000 / (den as i128);
            Fixed { raw: saturate(q) }
        }
    }
}

} // verus!
