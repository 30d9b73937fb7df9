//! Exact fractions.
//!
//! Every fractional quantity of the library (a margin, an aspect ratio, the
//! weight of a blended pixel) is a [`Ratio`]: a non-negative fraction of two
//! machine integers. All rounding is done once, at the moment a pixel count is
//! needed, by [`round_div`].
use vstd::prelude::*;

verus! {

/// The integer nearest to `n / d`, a tie going up: `floor(n / d + 1/2)`.
pub open spec fn round_div(n: int, d: int) -> int {
    (2 * n + d) / (2 * d)
}

/// `v`, or the largest `u32` where `v` is beyond it.
pub open spec fn saturate_u32(v: int) -> int {
    if v > u32::MAX {
        u32::MAX as int
    } else {
        v
    }
}

/// Rounds `n / d` to the nearest integer, a tie going up.
pub fn round_div_u128(n: u128, d: u128) -> (q: u128)
    requires
        d > 0,
        2 * n + d <= u128::MAX,
        2 * d <= u128::MAX,
    ensures
        q == round_div(n as int, d as int),
{
    (2 * n + d) / (2 * d)
}

/// Narrows `v` to a `u32`, stopping at `u32::MAX`.
pub fn saturating_u32(v: u128) -> (r: u32)
    ensures
        r == saturate_u32(v as int),
{
    if v > u32::MAX as u128 {
        u32::MAX
    } else {
        v as u32
    }
}

/// `round_div(n, d)` is the one integer `q` with `q - 1/2 <= n/d < q + 1/2`.
pub proof fn lemma_round_div_bounds(n: int, d: int)
    requires
        0 <= n,
        0 < d,
    ensures
        0 <= round_div(n, d),
        2 * d * round_div(n, d) - d <= 2 * n < 2 * d * round_div(n, d) + d,
{
    let q = round_div(n, d);
    vstd::arithmetic::div_mod::lemma_fundamental_div_mod(2 * n + d, 2 * d);
    vstd::arithmetic::div_mod::lemma_mod_bound(2 * n + d, 2 * d);
    vstd::arithmetic::div_mod::lemma_div_pos_is_pos(2 * n + d, 2 * d);
    assert(2 * d * q == (2 * d) * q) by (nonlinear_arith);
}

/// An integer that is within half a unit of `n / d` in the sense of
/// [`lemma_round_div_bounds`] is `round_div(n, d)`.
pub proof fn lemma_round_div_unique(n: int, d: int, q: int)
    requires
        0 < d,
        2 * d * q - d <= 2 * n < 2 * d * q + d,
    ensures
        q == round_div(n, d),
{
    let dd = 2 * d;
    assert(q * dd == 2 * d * q) by (nonlinear_arith)
        requires
            dd == 2 * d,
    ;
    vstd::arithmetic::div_mod::lemma_fundamental_div_mod_converse_div(
        2 * n + d,
        dd,
        q,
        2 * n + d - q * dd,
    );
}

/// Rounding never falls below an integer that the fraction reaches.
pub proof fn lemma_round_div_at_least(n: int, d: int, k: int)
    requires
        0 < d,
        0 <= n,
        k * d <= n,
    ensures
        k <= round_div(n, d),
{
    lemma_round_div_bounds(n, d);
    let q = round_div(n, d);
    if q < k {
        assert(2 * d * q + 2 * d <= 2 * d * k) by (nonlinear_arith)
            requires
                q + 1 <= k,
                0 < d,
        ;
        assert(2 * d * k == 2 * (k * d)) by (nonlinear_arith);
    }
}

/// A non-negative fraction `numerator / denominator` with a positive
/// denominator. Two ratios are equal when they denote the same number:
/// `1/10 == 10/100`.
#[derive(Clone, Copy, Debug)]
pub struct Ratio {
    numerator: u64,
    denominator: u64,
}

impl Ratio {
    #[verifier::type_invariant]
    spec fn positive_denominator(self) -> bool {
        self.denominator > 0
    }

    /// The numerator.
    pub closed spec fn num(self) -> nat {
        self.numerator as nat
    }

    /// The denominator.
    pub closed spec fn den(self) -> nat {
        self.denominator as nat
    }

    /// What every `Ratio` that executable code holds satisfies.
    pub open spec fn wf(self) -> bool {
        &&& self.den() > 0
        &&& self.num() <= u64::MAX
        &&& self.den() <= u64::MAX
    }

    /// `self` and `other` denote the same number.
    pub open spec fn same_value(self, other: Ratio) -> bool {
        self.num() * other.den() == other.num() * self.den()
    }

    /// `self` denotes a smaller number than `other`.
    pub open spec fn below(self, other: Ratio) -> bool {
        self.num() * other.den() < other.num() * self.den()
    }

    /// `numerator / denominator`, or `None` where the denominator is zero.
    pub fn new(numerator: u64, denominator: u64) -> (r: Option<Ratio>)
        ensures
            r is None <==> denominator == 0,
            r matches Some(q) ==> q.wf() && q.num() == numerator && q.den() == denominator,
    {
        if denominator == 0 {
            None
        } else {
            Some(Ratio { numerator, denominator })
        }
    }

    /// The numerator.
    pub fn numerator(&self) -> (n: u64)
        ensures
            n == self.num(),
    {
        self.numerator
    }

    /// The denominator, which is never zero.
    pub fn denominator(&self) -> (d: u64)
        ensures
            d == self.den(),
            d > 0,
            self.wf(),
    {
        proof {
            use_type_invariant(self);
        }
        self.denominator
    }

    /// Whether `self` denotes a smaller number than `other`.
    pub fn less_than(&self, other: &Ratio) -> (b: bool)
        ensures
            b == self.below(*other),
    {
        let (a, b, c, d) = (self.numerator, other.denominator, other.numerator, self.denominator);
        assert(a * b <= u64::MAX * u64::MAX && c * d <= u64::MAX * u64::MAX) by (nonlinear_arith)
            requires
                a <= u64::MAX,
                b <= u64::MAX,
                c <= u64::MAX,
                d <= u64::MAX,
        ;
        (a as u128) * (b as u128) < (c as u128) * (d as u128)
    }
}

impl PartialEq for Ratio {
    fn eq(&self, other: &Self) -> (b: bool) {
        let (a, b, c, d) = (self.numerator, other.denominator, other.numerator, self.denominator);
        assert(a * b <= u64::MAX * u64::MAX && c * d <= u64::MAX * u64::MAX) by (nonlinear_arith)
            requires
                a <= u64::MAX,
                b <= u64::MAX,
                c <= u64::MAX,
                d <= u64::MAX,
        ;
        (a as u128) * (b as u128) == (c as u128) * (d as u128)
    }
}

impl vstd::std_specs::cmp::PartialEqSpecImpl for Ratio {
    open spec fn obeys_eq_spec() -> bool {
        true
    }

    open spec fn eq_spec(&self, other: &Self) -> bool {
        self.same_value(*other)
    }
}

} // verus!
