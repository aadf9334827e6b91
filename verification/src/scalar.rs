//! Fixed-point scalars.
//!
//! Every quantity of the renderer (a coordinate, a distance, a colour channel,
//! an intensity) is a [`Scalar`]: a signed count of billionths held in an `i64`.
//! All arithmetic is total. A result that does not fit is clipped to the nearest
//! representable value, a quotient is rounded toward zero, division by zero
//! yields zero, and the square root of a negative number is zero.
use vstd::prelude::*;

verus! {

/// The raw value of the scalar one.
pub const UNIT: i64 = 1_000_000_000;

/// The raw value of one hundredth.
pub const HUNDREDTH: i64 = 10_000_000;

/// `v` brought into the range of raw values.
pub open spec fn clip(v: int) -> int {
    if v < i64::MIN {
        i64::MIN as int
    } else if v > i64::MAX {
        i64::MAX as int
    } else {
        v
    }
}

/// The absolute value of `v`.
pub open spec fn magnitude(v: int) -> int {
    if v < 0 {
        -v
    } else {
        v
    }
}

/// `n / d` rounded toward zero, and zero where `d` is zero.
pub open spec fn quotient(n: int, d: int) -> int {
    if d == 0 {
        0
    } else if (n < 0) == (d < 0) {
        magnitude(n) / magnitude(d)
    } else {
        -(magnitude(n) / magnitude(d))
    }
}

/// `r` is the integer square root of `n`.
pub open spec fn is_root(n: int, r: int) -> bool {
    0 <= r && r * r <= n < (r + 1) * (r + 1)
}

/// The integer square root of `n`, and zero where `n` is negative.
pub open spec fn root(n: int) -> int {
    if n <= 0 {
        0
    } else {
        choose|r: int| is_root(n, r)
    }
}

/// A number has at most one integer square root.
pub proof fn lemma_root_unique(n: int, r1: int, r2: int)
    requires
        is_root(n, r1),
        is_root(n, r2),
    ensures
        r1 == r2,
{
    if r1 < r2 {
        assert((r1 + 1) * (r1 + 1) <= r2 * r2) by (nonlinear_arith)
            requires
                0 <= r1,
                r1 + 1 <= r2,
        ;
    } else if r2 < r1 {
        assert((r2 + 1) * (r2 + 1) <= r1 * r1) by (nonlinear_arith)
            requires
                0 <= r2,
                r2 + 1 <= r1,
        ;
    }
}

/// `root(n)` is the one number that `is_root` accepts for `n`.
pub proof fn lemma_root_is(n: int, r: int)
    requires
        is_root(n, r),
    ensures
        root(n) == r,
{
    if n <= 0 {
        assert(r * r >= 0) by (nonlinear_arith);
        if r > 0 {
            assert(r * r > 0) by (nonlinear_arith)
                requires
                    r > 0,
            ;
        }
    } else {
        lemma_root_unique(n, r, root(n));
    }
}

/// Rounding toward zero keeps the order of the numerators, for a divisor
/// that is not negative.
pub proof fn lemma_quotient_monotone(m: int, n: int, d: int)
    requires
        m <= n,
        0 <= d,
    ensures
        quotient(m, d) <= quotient(n, d),
{
    if d > 0 {
        if m >= 0 {
            assert(m / d <= n / d) by (nonlinear_arith)
                requires
                    0 <= m <= n,
                    d > 0,
            ;
        } else if n < 0 {
            assert((-n) / d <= (-m) / d) by (nonlinear_arith)
                requires
                    0 <= -n <= -m,
                    d > 0,
            ;
        } else {
            assert(0 <= n / d && 0 <= (-m) / d) by (nonlinear_arith)
                requires
                    0 <= n,
                    0 <= -m,
                    d > 0,
            ;
        }
    }
}

/// A multiple of the divisor is divided without rounding.
pub proof fn lemma_quotient_of_multiple(q: int, d: int)
    requires
        0 < d,
    ensures
        quotient(q * d, d) == q,
{
    if q >= 0 {
        assert((q * d) / d == q && q * d >= 0) by (nonlinear_arith)
            requires
                q >= 0,
                d > 0,
        ;
    } else {
        assert((-(q * d)) / d == -q && q * d < 0) by (nonlinear_arith)
            requires
                q < 0,
                d > 0,
        ;
    }
}

/// The integer square root of `n`, found by bisection.
pub fn isqrt(n: u128) -> (r: u128)
    ensures
        r == root(n as int),
        r < 0x1_0000_0000_0000_0000,
{
    let mut lo: u128 = 0;
    let mut hi: u128 = 0x1_0000_0000_0000_0000;
    assert(0x1_0000_0000_0000_0000int * 0x1_0000_0000_0000_0000int > u128::MAX) by (nonlinear_arith);
    while hi - lo > 1
        invariant
            lo < hi <= 0x1_0000_0000_0000_0000,
            lo * lo <= n < hi * hi,
        decreases hi - lo,
    {
        let mid: u128 = lo + (hi - lo) / 2;
        assert(mid * mid < 0x1_0000_0000_0000_0000int * 0x1_0000_0000_0000_0000int)
            by (nonlinear_arith)
            requires
                0 <= mid < 0x1_0000_0000_0000_0000,
        ;
        assert(0x1_0000_0000_0000_0000int * 0x1_0000_0000_0000_0000int == u128::MAX + 1)
            by (nonlinear_arith);
        if mid * mid <= n {
            lo = mid;
        } else {
            hi = mid;
        }
    }
    proof {
        assert(is_root(n as int, lo as int));
        lemma_root_is(n as int, lo as int);
    }
    lo
}

/// A fixed-point number: `raw` counts billionths.
#[derive(Clone, Copy, Debug, PartialEq, Eq, Structural)]
pub struct Scalar {
    pub raw: i64,
}

impl View for Scalar {
    type V = int;

    open spec fn view(&self) -> int {
        self.raw as int
    }
}

impl Scalar {
    /// The scalar whose raw value is `v`, clipped.
    pub open spec fn of(v: int) -> Scalar {
        Scalar { raw: clip(v) as i64 }
    }

    /// The sum, clipped.
    pub open spec fn plus(self, rhs: Scalar) -> Scalar {
        Scalar::of(self.raw + rhs.raw)
    }

    /// The difference, clipped.
    pub open spec fn minus(self, rhs: Scalar) -> Scalar {
        Scalar::of(self.raw - rhs.raw)
    }

    /// The product, rounded toward zero and clipped.
    #[verifier::opaque]
    pub open spec fn times(self, rhs: Scalar) -> Scalar {
        Scalar::of(quotient(self.raw * rhs.raw, UNIT as int))
    }

    /// The quotient, rounded toward zero and clipped; zero where `rhs` is zero.
    #[verifier::opaque]
    pub open spec fn over(self, rhs: Scalar) -> Scalar {
        Scalar::of(quotient(self.raw * UNIT, rhs.raw as int))
    }

    /// The negation, clipped.
    pub open spec fn negated(self) -> Scalar {
        Scalar::of(-self.raw)
    }

    /// The absolute value, clipped.
    pub open spec fn spec_abs(self) -> Scalar {
        Scalar::of(magnitude(self.raw as int))
    }

    /// The square root, rounded down; zero where `self` is negative.
    #[verifier::opaque]
    pub open spec fn spec_sqrt(self) -> Scalar {
        Scalar::of(root(self.raw * UNIT))
    }

    /// The larger of the two.
    pub open spec fn spec_max(self, other: Scalar) -> Scalar {
        if self.raw < other.raw {
            other
        } else {
            self
        }
    }

    /// The whole number `n` as a scalar, clipped.
    pub open spec fn spec_from_int(n: int) -> Scalar {
        Scalar::of(n * UNIT)
    }

    /// The fraction `num / den` as a scalar.
    pub open spec fn spec_ratio(num: int, den: int) -> Scalar {
        Scalar::of(quotient(num * UNIT, den))
    }

    /// The scalar nearest to `v` among those that an `i64` holds.
    fn narrow(v: i128) -> (r: Scalar)
        ensures
            r == Scalar::of(v as int),
    {
        if v < i64::MIN as i128 {
            Scalar { raw: i64::MIN }
        } else if v > i64::MAX as i128 {
            Scalar { raw: i64::MAX }
        } else {
            Scalar { raw: v as i64 }
        }
    }

    /// `v` times the raw value of one.
    fn widen(v: i64) -> (w: i128)
        ensures
            w == v * UNIT,
            i128::MIN < w,
    {
        (v as i128) * 1_000_000_000
    }

    /// `n / d` rounded toward zero; zero where `d` is zero.
    fn divide(n: i128, d: i128) -> (q: i128)
        requires
            i128::MIN < n,
            i128::MIN < d,
        ensures
            q == quotient(n as int, d as int),
    {
        if d == 0 {
            return 0;
        }
        let nn: i128 = if n < 0 {
            -n
        } else {
            n
        };
        let dd: i128 = if d < 0 {
            -d
        } else {
            d
        };
        let q: i128 = nn / dd;
        assert(0 <= q <= nn) by (nonlinear_arith)
            requires
                q == nn / dd,
                nn >= 0,
                dd > 0,
        ;
        if (n < 0) == (d < 0) {
            q
        } else {
            -q
        }
    }

    /// The scalar zero.
    pub fn zero() -> (r: Scalar)
        ensures
            r.raw == 0,
    {
        Scalar { raw: 0 }
    }

    /// The scalar one.
    pub fn one() -> (r: Scalar)
        ensures
            r.raw == UNIT,
    {
        Scalar { raw: UNIT }
    }

    /// The whole number `n` as a scalar, clipped.
    pub fn from_int(n: i64) -> (r: Scalar)
        ensures
            r == Scalar::spec_from_int(n as int),
    {
        Scalar::narrow(Scalar::widen(n))
    }

    /// The count `n` as a scalar, clipped.
    pub fn from_count(n: usize) -> (r: Scalar)
        ensures
            r == Scalar::spec_from_int(n as int),
    {
        Scalar::narrow((n as i128) * 1_000_000_000)
    }

    /// The fraction `num / den` as a scalar, rounded toward zero and clipped;
    /// zero where `den` is zero.
    pub fn ratio(num: i64, den: i64) -> (r: Scalar)
        ensures
            r == Scalar::spec_ratio(num as int, den as int),
    {
        Scalar::narrow(Scalar::divide(Scalar::widen(num), den as i128))
    }

    /// The absolute value, clipped.
    pub fn abs(self) -> (r: Scalar)
        ensures
            r == self.spec_abs(),
    {
        if self.raw < 0 {
            Scalar::narrow(-(self.raw as i128))
        } else {
            self
        }
    }

    /// The square root, rounded down; zero where `self` is negative.
    pub fn sqrt(self) -> (r: Scalar)
        ensures
            r == self.spec_sqrt(),
    {
        proof {
            reveal(Scalar::spec_sqrt);
        }
        if self.raw <= 0 {
            Scalar { raw: 0 }
        } else {
            let n: u128 = (self.raw as u128) * 1_000_000_000;
            let s: u128 = isqrt(n);
            Scalar::narrow(s as i128)
        }
    }

    /// The larger of the two.
    pub fn max(self, other: Scalar) -> (r: Scalar)
        ensures
            r == self.spec_max(other),
    {
        if self.raw < other.raw {
            other
        } else {
            self
        }
    }
}

/// A product with zero is zero.
pub proof fn lemma_times_zero(a: Scalar)
    ensures
        a.times(Scalar { raw: 0 }).raw == 0,
        (Scalar { raw: 0 }).times(a).raw == 0,
{
    reveal(Scalar::times);
    assert(a.raw * 0 == 0 && 0 * a.raw == 0) by (nonlinear_arith);
}

/// One times one is one.
pub proof fn lemma_one_squared()
    ensures
        (Scalar { raw: UNIT }).times(Scalar { raw: UNIT }).raw == UNIT,
{
    reveal(Scalar::times);
    lemma_quotient_of_multiple(UNIT as int, UNIT as int);
}

/// The square root of zero is zero.
pub proof fn lemma_sqrt_zero()
    ensures
        (Scalar { raw: 0 }).spec_sqrt().raw == 0,
{
    reveal(Scalar::spec_sqrt);
}

/// A product of two scalars that are not negative is not negative.
pub proof fn lemma_times_not_negative(a: Scalar, b: Scalar)
    requires
        0 <= a.raw,
        0 <= b.raw,
    ensures
        0 <= a.times(b).raw,
{
    reveal(Scalar::times);
    assert(0 <= a.raw * b.raw) by (nonlinear_arith)
        requires
            0 <= a.raw,
            0 <= b.raw,
    ;
    lemma_quotient_monotone(0, a.raw * b.raw, UNIT as int);
}

/// Multiplying by a scalar that is not negative keeps the order.
pub proof fn lemma_times_monotone(a: Scalar, b: Scalar, c: Scalar)
    requires
        a.raw <= b.raw,
        0 <= c.raw,
    ensures
        a.times(c).raw <= b.times(c).raw,
        c.times(a).raw <= c.times(b).raw,
{
    reveal(Scalar::times);
    assert(a.raw * c.raw <= b.raw * c.raw && c.raw * a.raw <= c.raw * b.raw) by (nonlinear_arith)
        requires
            a.raw <= b.raw,
            0 <= c.raw,
    ;
    lemma_quotient_monotone(a.raw * c.raw, b.raw * c.raw, UNIT as int);
    lemma_quotient_monotone(c.raw * a.raw, c.raw * b.raw, UNIT as int);
}

/// Dividing by a scalar that is not negative keeps the order.
pub proof fn lemma_over_monotone(a: Scalar, b: Scalar, d: Scalar)
    requires
        a.raw <= b.raw,
        0 <= d.raw,
    ensures
        a.over(d).raw <= b.over(d).raw,
{
    reveal(Scalar::over);
    lemma_quotient_monotone(a.raw * UNIT, b.raw * UNIT, d.raw as int);
}

impl Default for Scalar {
    fn default() -> (r: Scalar)
        ensures
            r.raw == 0,
    {
        Scalar { raw: 0 }
    }
}

impl core::ops::Add for Scalar {
    type Output = Scalar;

    fn add(self, rhs: Scalar) -> (r: Scalar)
        ensures
            r == self.plus(rhs),
    {
        Scalar::narrow(self.raw as i128 + rhs.raw as i128)
    }
}

impl vstd::std_specs::ops::AddSpecImpl for Scalar {
    open spec fn obeys_add_spec() -> bool {
        true
    }

    open spec fn add_req(self, rhs: Scalar) -> bool {
        true
    }

    open spec fn add_spec(self, rhs: Scalar) -> Scalar {
        self.plus(rhs)
    }
}

impl core::ops::Sub for Scalar {
    type Output = Scalar;

    fn sub(self, rhs: Scalar) -> (r: Scalar)
        ensures
            r == self.minus(rhs),
    {
        Scalar::narrow(self.raw as i128 - rhs.raw as i128)
    }
}

impl vstd::std_specs::ops::SubSpecImpl for Scalar {
    open spec fn obeys_sub_spec() -> bool {
        true
    }

    open spec fn sub_req(self, rhs: Scalar) -> bool {
        true
    }

    open spec fn sub_spec(self, rhs: Scalar) -> Scalar {
        self.minus(rhs)
    }
}

impl core::ops::Mul for Scalar {
    type Output = Scalar;

    fn mul(self, rhs: Scalar) -> (r: Scalar)
        ensures
            r == self.times(rhs),
    {
        proof {
            reveal(Scalar::times);
        }
        let a: i64 = self.raw;
        let b: i64 = rhs.raw;
        assert(-0x4000_0000_0000_0000_0000_0000_0000_0000 <= a * b
            <= 0x4000_0000_0000_0000_0000_0000_0000_0000) by (nonlinear_arith)
            requires
                -0x8000_0000_0000_0000 <= a <= 0x8000_0000_0000_0000,
                -0x8000_0000_0000_0000 <= b <= 0x8000_0000_0000_0000,
        ;
        Scalar::narrow(Scalar::divide((a as i128) * (b as i128), 1_000_000_000))
    }
}

impl vstd::std_specs::ops::MulSpecImpl for Scalar {
    open spec fn obeys_mul_spec() -> bool {
        true
    }

    open spec fn mul_req(self, rhs: Scalar) -> bool {
        true
    }

    open spec fn mul_spec(self, rhs: Scalar) -> Scalar {
        self.times(rhs)
    }
}

impl core::ops::Div for Scalar {
    type Output = Scalar;

    fn div(self, rhs: Scalar) -> (r: Scalar)
        ensures
            r == self.over(rhs),
    {
        proof {
            reveal(Scalar::over);
        }
        Scalar::narrow(Scalar::divide(Scalar::widen(self.raw), rhs.raw as i128))
    }
}

impl vstd::std_specs::ops::DivSpecImpl for Scalar {
    open spec fn obeys_div_spec() -> bool {
        true
    }

    open spec fn div_req(self, rhs: Scalar) -> bool {
        true
    }

    open spec fn div_spec(self, rhs: Scalar) -> Scalar {
        self.over(rhs)
    }
}

impl core::ops::Neg for Scalar {
    type Output = Scalar;

    fn neg(self) -> (r: Scalar)
        ensures
            r == self.negated(),
    {
        Scalar::narrow(-(self.raw as i128))
    }
}

impl vstd::std_specs::ops::NegSpecImpl for Scalar {
    open spec fn obeys_neg_spec() -> bool {
        true
    }

    open spec fn neg_req(self) -> bool {
        true
    }

    open spec fn neg_spec(self) -> Scalar {
        self.negated()
    }
}

} // verus!
