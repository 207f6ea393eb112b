//! The numeric abstraction the measurement engines are generic over, and an
//! exact integer scalar implementing it.
//!
//! Every formula in this crate is parameterized by a scalar type rather than a
//! concrete number. A scalar fixes the meaning of its own operations through
//! the spec functions of these traits, so each engine's contract can state the
//! exact expression it evaluates in that scalar's arithmetic, whatever the
//! scalar's precision or rounding policy is.

use vstd::prelude::*;

verus! {

/// The operations the area engine needs: an ordered-field-like carrier with
/// additive and multiplicative identities. Each implementation gives its
/// operations a meaning through the spec functions; the executable methods
/// are bound to those meanings by their contracts.
pub trait Scalar: Sized + Copy {
    /// Meaning of the additive identity. The default is an unspecified
    /// value: an implementation gives it a meaning by overriding it.
    open spec fn spec_zero() -> Self {
        vstd::pervasive::arbitrary()
    }

    /// Meaning of the multiplicative identity.
    open spec fn spec_one() -> Self {
        vstd::pervasive::arbitrary()
    }

    /// Meaning of addition in this scalar's arithmetic.
    open spec fn spec_plus(self, o: Self) -> Self {
        vstd::pervasive::arbitrary()
    }

    /// Meaning of subtraction in this scalar's arithmetic.
    open spec fn spec_minus(self, o: Self) -> Self {
        vstd::pervasive::arbitrary()
    }

    /// Meaning of multiplication in this scalar's arithmetic.
    open spec fn spec_times(self, o: Self) -> Self {
        vstd::pervasive::arbitrary()
    }

    /// Meaning of division in this scalar's arithmetic. Implementations must
    /// be total: they fix some result even for a zero divisor.
    open spec fn spec_over(self, o: Self) -> Self {
        vstd::pervasive::arbitrary()
    }

    fn zero() -> (r: Self)
        ensures
            r == Self::spec_zero(),
    ;

    fn one() -> (r: Self)
        ensures
            r == Self::spec_one(),
    ;

    fn plus(self, o: Self) -> (r: Self)
        ensures
            r == self.spec_plus(o),
    ;

    fn minus(self, o: Self) -> (r: Self)
        ensures
            r == self.spec_minus(o),
    ;

    fn times(self, o: Self) -> (r: Self)
        ensures
            r == self.spec_times(o),
    ;

    fn over(self, o: Self) -> (r: Self)
        ensures
            r == self.spec_over(o),
    ;
}

/// The further operations the distance and containment engines need:
/// comparisons, absolute value, minimum and maximum, the Euclidean norm of a
/// pair, a greatest element to seed minimum folds, and the reduced-precision
/// near-zero test used for point coincidence. A scalar with non-finite values
/// fixes here how its comparisons treat them.
pub trait MetricScalar: Scalar {
    /// Meaning of the scalar's own equality test (which need not be
    /// reflexive, e.g. on a carrier with non-finite values).
    open spec fn spec_eq(self, o: Self) -> bool {
        vstd::pervasive::arbitrary()
    }

    /// Meaning of `self <= o` in this scalar's order.
    open spec fn spec_le(self, o: Self) -> bool {
        vstd::pervasive::arbitrary()
    }

    /// Meaning of `self < o` in this scalar's order.
    open spec fn spec_lt(self, o: Self) -> bool {
        vstd::pervasive::arbitrary()
    }

    /// Meaning of the absolute value.
    open spec fn spec_abs(self) -> Self {
        vstd::pervasive::arbitrary()
    }

    /// Meaning of the minimum of two scalars.
    open spec fn spec_min(self, o: Self) -> Self {
        vstd::pervasive::arbitrary()
    }

    /// Meaning of the maximum of two scalars.
    open spec fn spec_max(self, o: Self) -> Self {
        vstd::pervasive::arbitrary()
    }

    /// Meaning of `sqrt(self^2 + o^2)`, the Euclidean norm of the pair.
    open spec fn spec_hypot(self, o: Self) -> Self {
        vstd::pervasive::arbitrary()
    }

    /// Meaning of the greatest representable value.
    open spec fn spec_greatest() -> Self {
        vstd::pervasive::arbitrary()
    }

    /// Meaning of the deliberately precision-losing test that a computed
    /// distance is indistinguishable from zero.
    open spec fn spec_near_zero(self) -> bool {
        vstd::pervasive::arbitrary()
    }

    fn eqv(self, o: Self) -> (r: bool)
        ensures
            r == self.spec_eq(o),
    ;

    fn le(self, o: Self) -> (r: bool)
        ensures
            r == self.spec_le(o),
    ;

    fn lt(self, o: Self) -> (r: bool)
        ensures
            r == self.spec_lt(o),
    ;

    fn abs_val(self) -> (r: Self)
        ensures
            r == self.spec_abs(),
    ;

    fn min_with(self, o: Self) -> (r: Self)
        ensures
            r == self.spec_min(o),
    ;

    fn max_with(self, o: Self) -> (r: Self)
        ensures
            r == self.spec_max(o),
    ;

    fn hypot(self, o: Self) -> (r: Self)
        ensures
            r == self.spec_hypot(o),
    ;

    fn greatest() -> (r: Self)
        ensures
            r == Self::spec_greatest(),
    ;

    fn near_zero(self) -> (r: bool)
        ensures
            r == self.spec_near_zero(),
    ;
}

/// An exact integer scalar: arithmetic wraps modulo 2^64 (so it stays total),
/// division truncates toward zero, and the Euclidean norm rounds down to the
/// nearest integer. Within the untruncated range its results are the exact
/// mathematical ones, which is what the concrete area laws are proved over.
#[derive(Clone, Copy, PartialEq, Eq, Structural, Debug)]
pub struct Exact(pub i64);

impl Scalar for Exact {
    open spec fn spec_zero() -> Self {
        Exact(0i64)
    }

    open spec fn spec_one() -> Self {
        Exact(1i64)
    }

    open spec fn spec_plus(self, o: Self) -> Self {
        Exact(vstd::wrapping::i64_specs::wrapping_add(self.0, o.0))
    }

    open spec fn spec_minus(self, o: Self) -> Self {
        Exact(vstd::wrapping::i64_specs::wrapping_sub(self.0, o.0))
    }

    open spec fn spec_times(self, o: Self) -> Self {
        Exact(vstd::wrapping::i64_specs::wrapping_mul(self.0, o.0))
    }

    open spec fn spec_over(self, o: Self) -> Self {
        if o.0 == 0 {
            Exact(0i64)
        } else {
            let q: int = vstd::math::abs(self.0 as int) as int / vstd::math::abs(
                o.0 as int) as int;
            if (self.0 < 0) != (o.0 < 0) {
                Exact((0 - q) as i64)
            } else {
                Exact(vstd::wrapping::i64_specs::signed_crop(q))
            }
        }
    }

    fn zero() -> (r: Self) {
        Exact(0)
    }

    fn one() -> (r: Self) {
        Exact(1)
    }

    fn plus(self, o: Self) -> (r: Self) {
        Exact(self.0.wrapping_add(o.0))
    }

    fn minus(self, o: Self) -> (r: Self) {
        Exact(self.0.wrapping_sub(o.0))
    }

    fn times(self, o: Self) -> (r: Self) {
        Exact(self.0.wrapping_mul(o.0))
    }

    fn over(self, o: Self) -> (r: Self) {
        if o.0 == 0 {
            return Exact(0);
        }
        let a: u64 = magnitude(self.0);
        let b: u64 = magnitude(o.0);
        let q: u64 = a / b;
        proof {
            vstd::arithmetic::div_mod::lemma_div_nonincreasing(a as int, b as int);
        }
        if (self.0 < 0) != (o.0 < 0) {
            if q >= 0x8000_0000_0000_0000u64 {
                Exact(i64::MIN)
            } else {
                Exact(-(q as i64))
            }
        } else {
            if q >= 0x8000_0000_0000_0000u64 {
                Exact(i64::MIN)
            } else {
                Exact(q as i64)
            }
        }
    }
}

impl MetricScalar for Exact {
    open spec fn spec_eq(self, o: Self) -> bool {
        self.0 == o.0
    }

    open spec fn spec_le(self, o: Self) -> bool {
        self.0 <= o.0
    }

    open spec fn spec_lt(self, o: Self) -> bool {
        self.0 < o.0
    }

    open spec fn spec_abs(self) -> Self {
        if self.0 == i64::MIN {
            self
        } else if self.0 < 0 {
            Exact((0 - self.0) as i64)
        } else {
            self
        }
    }

    open spec fn spec_min(self, o: Self) -> Self {
        if self.0 <= o.0 {
            self
        } else {
            o
        }
    }

    open spec fn spec_max(self, o: Self) -> Self {
        if self.0 >= o.0 {
            self
        } else {
            o
        }
    }

    open spec fn spec_hypot(self, o: Self) -> Self {
        let a = vstd::math::abs(self.0 as int) as int;
        let b = vstd::math::abs(o.0 as int) as int;
        let q = int_sqrt(a * a + b * b);
        if q > i64::MAX as int {
            Exact(i64::MAX)
        } else {
            Exact(q as i64)
        }
    }

    open spec fn spec_greatest() -> Self {
        Exact(i64::MAX)
    }

    open spec fn spec_near_zero(self) -> bool {
        self.0 == 0
    }

    fn eqv(self, o: Self) -> (r: bool) {
        self.0 == o.0
    }

    fn le(self, o: Self) -> (r: bool) {
        self.0 <= o.0
    }

    fn lt(self, o: Self) -> (r: bool) {
        self.0 < o.0
    }

    fn abs_val(self) -> (r: Self) {
        if self.0 == i64::MIN {
            self
        } else if self.0 < 0 {
            Exact(-self.0)
        } else {
            self
        }
    }

    fn min_with(self, o: Self) -> (r: Self) {
        if self.0 <= o.0 {
            self
        } else {
            o
        }
    }

    fn max_with(self, o: Self) -> (r: Self) {
        if self.0 >= o.0 {
            self
        } else {
            o
        }
    }

    fn hypot(self, o: Self) -> (r: Self) {
        let a: u64 = magnitude(self.0);
        let b: u64 = magnitude(o.0);
        proof {
            assert((a as int) * (a as int) <= 0x8000_0000_0000_0000 * 0x8000_0000_0000_0000)
                by (nonlinear_arith)
                requires a <= 0x8000_0000_0000_0000u64,
            ;
            assert((b as int) * (b as int) <= 0x8000_0000_0000_0000 * 0x8000_0000_0000_0000)
                by (nonlinear_arith)
                requires b <= 0x8000_0000_0000_0000u64,
            ;
        }
        let aa: u128 = (a as u128) * (a as u128);
        let bb: u128 = (b as u128) * (b as u128);
        let s: u128 = aa + bb;
        let q: u128 = isqrt_u128(s);
        if q > 0x7FFF_FFFF_FFFF_FFFFu128 {
            Exact(i64::MAX)
        } else {
            Exact(q as i64)
        }
    }

    fn greatest() -> (r: Self) {
        Exact(i64::MAX)
    }

    fn near_zero(self) -> (r: bool) {
        self.0 == 0
    }
}

/// Within the representable range, wrapping arithmetic's cropped value is
/// the value itself.
pub proof fn lemma_signed_crop_exact(p: int)
    requires
        i64::MIN <= p <= i64::MAX,
    ensures
        vstd::wrapping::i64_specs::signed_crop(p) == p,
{
    let range: int = 0x1_0000_0000_0000_0000;
    if p >= 0 {
        vstd::arithmetic::div_mod::lemma_small_mod(p as nat, range as nat);
    } else {
        vstd::arithmetic::div_mod::lemma_mod_add_multiples_vanish(p, range);
        vstd::arithmetic::div_mod::lemma_small_mod((p + range) as nat, range as nat);
    }
}

/// The integer square root: the greatest integer whose square does not
/// exceed `n` (zero for a non-positive argument).
pub open spec fn int_sqrt(n: int) -> int
    decreases n,
{
    if n <= 0 {
        0
    } else if (int_sqrt(n - 1) + 1) * (int_sqrt(n - 1) + 1) <= n {
        int_sqrt(n - 1) + 1
    } else {
        int_sqrt(n - 1)
    }
}

/// The integer square root of a non-negative integer is the floor of its
/// real square root: its square is at most `n` and the next square is
/// beyond it.
pub proof fn lemma_int_sqrt_bounds(n: int)
    requires
        n >= 0,
    ensures
        0 <= int_sqrt(n),
        int_sqrt(n) * int_sqrt(n) <= n,
        n < (int_sqrt(n) + 1) * (int_sqrt(n) + 1),
    decreases n,
{
    if n > 0 {
        lemma_int_sqrt_bounds(n - 1);
        let r = int_sqrt(n - 1);
        if (r + 1) * (r + 1) <= n {
            assert(n == (r + 1) * (r + 1));
            assert((r + 1) * (r + 1) < (r + 2) * (r + 2)) by (nonlinear_arith)
                requires
                    r >= 0,
            ;
        }
    }
}

/// Any integer between consecutive squares pins the integer square root
/// down uniquely.
pub proof fn lemma_int_sqrt_unique(n: int, r: int)
    requires
        n >= 0,
        r >= 0,
        r * r <= n,
        n < (r + 1) * (r + 1),
    ensures
        r == int_sqrt(n),
{
    lemma_int_sqrt_bounds(n);
    let s = int_sqrt(n);
    if r < s {
        assert((r + 1) * (r + 1) <= s * s) by (nonlinear_arith)
            requires
                0 <= r + 1 <= s,
        ;
        assert(false);
    }
    if s < r {
        assert((s + 1) * (s + 1) <= r * r) by (nonlinear_arith)
            requires
                0 <= s + 1 <= r,
        ;
        assert(false);
    }
}

/// Floor square root of an unsigned double word, by binary search over the
/// word-sized candidates.
fn isqrt_u128(n: u128) -> (r: u128)
    ensures
        r as int == int_sqrt(n as int),
        r <= 0xFFFF_FFFF_FFFF_FFFFu128,
{
    let mut lo: u128 = 0;
    let mut hi: u128 = 0xFFFF_FFFF_FFFF_FFFFu128;
    proof {
        assert((n as int) < (hi as int + 1) * (hi as int + 1)) by (nonlinear_arith)
            requires
                n <= u128::MAX,
                hi == 0xFFFF_FFFF_FFFF_FFFFu128,
        ;
    }
    while lo < hi
        invariant
            lo <= hi,
            hi <= 0xFFFF_FFFF_FFFF_FFFFu128,
            (lo as int) * (lo as int) <= n as int,
            (n as int) < (hi as int + 1) * (hi as int + 1),
        decreases hi - lo,
    {
        let mid: u128 = lo + (hi - lo + 1) / 2;
        proof {
            assert((mid as int) * (mid as int) <= u128::MAX as int) by (nonlinear_arith)
                requires
                    mid <= 0xFFFF_FFFF_FFFF_FFFFu128,
            ;
        }
        let sq: u128 = mid * mid;
        if sq <= n {
            lo = mid;
        } else {
            hi = mid - 1;
        }
    }
    proof {
        lemma_int_sqrt_unique(n as int, lo as int);
    }
    lo
}

/// The absolute value of a signed word, as an unsigned word (total, unlike
/// `i64` negation, because the most negative value fits unsigned).
fn magnitude(x: i64) -> (r: u64)
    ensures
        r == vstd::math::abs(x as int),
{
    if x >= 0 {
        x as u64
    } else {
        (-(x as i128)) as u64
    }
}

/// The exact Euclidean norm of the zero pair is zero.
pub proof fn lemma_exact_hypot_zero()
    ensures
        Exact(0i64).spec_hypot(Exact(0i64)) == Exact(0i64),
{
    assert(int_sqrt(0) == 0);
    assert(vstd::math::abs(0int) == 0nat);
    let a: int = vstd::math::abs(0int) as int;
    assert(a == 0);
    assert(a * a + a * a == 0);
    assert(int_sqrt(a * a + a * a) == 0);
    assert(!(0int > i64::MAX as int));
    assert(Exact(0i64).spec_hypot(Exact(0i64)).0 as int == int_sqrt(0));
}

} // verus!
