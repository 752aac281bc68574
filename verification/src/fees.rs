//! Polynomial fee schedules: how a chain turns a weight into a fee.
//!
//! A schedule is a short list of terms. Each term has a degree, a sign and a
//! coefficient split into an integer part and a proper fraction, so that the
//! whole computation stays in integers. Every step of it stops at the largest
//! balance that the chain can hold.

use vstd::prelude::*;
use vstd::arithmetic::div_mod::{lemma_fundamental_div_mod, lemma_hoist_over_denominator};
use smallvec::SmallVec;
use crate::primitives::{Balance, Weight};

verus! {

/// A proper fraction `numerator / denominator`.
#[derive(Clone, Copy, Debug, PartialEq, Eq)]
pub struct Ratio {
    /// The numerator, below the denominator.
    pub numerator: u64,
    /// The denominator, not zero.
    pub denominator: u64,
}

/// One term of a fee polynomial.
#[derive(Clone, Copy, Debug, PartialEq, Eq)]
pub struct WeightToFeeCoefficient {
    /// The integer part of the coefficient.
    pub coeff_integer: Balance,
    /// The fractional part of the coefficient.
    pub coeff_frac: Ratio,
    /// Whether the term is subtracted.
    pub negative: bool,
    /// The power of the weight that the coefficient multiplies.
    pub degree: u8,
}

/// The terms of a fee polynomial, kept inline while there are at most four.
#[verifier::external_body]
pub struct WeightToFeeCoefficients {
    terms: SmallVec<[WeightToFeeCoefficient; 4]>,
}

/// The terms that a list holds, first to last.
pub uninterp spec fn spec_terms(list: WeightToFeeCoefficients) -> Seq<WeightToFeeCoefficient>;

/// Calls `SmallVec::new`, which gives an empty list.
#[verifier::external_body]
pub(crate) fn terms_new() -> (list: WeightToFeeCoefficients)
    ensures
        spec_terms(list) == Seq::<WeightToFeeCoefficient>::empty(),
{
    WeightToFeeCoefficients { terms: SmallVec::new() }
}

/// Calls `SmallVec::push`, which puts the term behind the others. A full
/// list first grows to the next power of two, and that fails where the new
/// allocation would not fit the address space; the bound keeps well below it.
#[verifier::external_body]
pub(crate) fn terms_push(list: &mut WeightToFeeCoefficients, term: WeightToFeeCoefficient)
    requires
        spec_terms(*old(list)).len() < 0x100_0000,
    ensures
        spec_terms(*final(list)) == spec_terms(*old(list)).push(term),
{
    list.terms.push(term)
}

/// Calls `SmallVec::len`, the number of terms held.
#[verifier::external_body]
pub(crate) fn terms_len(list: &WeightToFeeCoefficients) -> (len: usize)
    ensures
        len == spec_terms(*list).len(),
{
    list.terms.len()
}

/// Indexes the `SmallVec` as a slice, which gives the term at `index`.
#[verifier::external_body]
pub(crate) fn terms_get(list: &WeightToFeeCoefficients, index: usize) -> (term:
    WeightToFeeCoefficient)
    requires
        index < spec_terms(*list).len(),
    ensures
        term == spec_terms(*list)[index as int],
{
    list.terms[index]
}

/// `x`, or `cap` where `x` is beyond it.
pub open spec fn spec_saturate(x: nat, cap: Balance) -> nat {
    if x > cap {
        cap as nat
    } else {
        x
    }
}

/// `base` to the power `exp`.
pub open spec fn spec_power(base: nat, exp: nat) -> nat
    decreases exp,
{
    if exp == 0 {
        1
    } else {
        base * spec_power(base, (exp - 1) as nat)
    }
}

impl Ratio {
    /// Whether this is a fraction at all, and a proper one.
    pub open spec fn spec_well_formed(self) -> bool {
        self.numerator < self.denominator
    }

    /// The fraction of `amount`, rounded down.
    pub open spec fn spec_of(self, amount: nat) -> nat {
        (amount * (self.numerator as nat)) / (self.denominator as nat)
    }

    /// The fraction `numerator / denominator`, if it is a proper one.
    pub fn new(numerator: u64, denominator: u64) -> (ratio: Option<Ratio>)
        ensures
            ratio is Some <==> numerator < denominator,
            ratio matches Some(r) ==> r.numerator == numerator && r.denominator == denominator
                && r.spec_well_formed(),
    {
        if numerator < denominator {
            Some(Ratio { numerator, denominator })
        } else {
            None
        }
    }

    /// The fraction of `amount`, rounded down. No precision is lost on the
    /// way: the result is the floor of the exact product.
    pub fn of(&self, amount: Balance) -> (part: Balance)
        requires
            self.spec_well_formed(),
        ensures
            part == self.spec_of(amount as nat),
            part <= amount,
    {
        let den: u128 = self.denominator as u128;
        let num: u128 = self.numerator as u128;
        let whole: u128 = amount / den;
        let rest: u128 = amount % den;
        proof {
            lemma_ratio_split(amount as nat, self.numerator as nat, self.denominator as nat);
            assert(rest * num <= u64::MAX * u64::MAX) by (nonlinear_arith)
                requires
                    rest <= u64::MAX,
                    num <= u64::MAX,
            ;
        }
        whole * num + (rest * num) / den
    }
}

/// The floor of `amount * num / den` is the sum of the same floor taken of
/// the whole multiples of `den` in `amount` and of what is left of it.
proof fn lemma_ratio_split(amount: nat, num: nat, den: nat)
    requires
        num < den,
    ensures
        (amount * num) / den == (amount / den) * num + ((amount % den) * num) / den,
        (amount / den) * num <= amount,
        (amount * num) / den <= amount,
{
    let whole = amount / den;
    let rest = amount % den;
    lemma_fundamental_div_mod(amount as int, den as int);
    assert(amount * num == rest * num + (whole * num) * den) by (nonlinear_arith)
        requires
            amount == den * whole + rest,
    ;
    lemma_hoist_over_denominator((rest * num) as int, (whole * num) as int, den);
    assert(whole * num <= whole * den) by (nonlinear_arith)
        requires
            num < den,
    ;
    assert(rest * num <= rest * den) by (nonlinear_arith)
        requires
            num < den,
    ;
    assert((rest * den) / den == rest) by (nonlinear_arith)
        requires
            den > 0,
    ;
    vstd::arithmetic::div_mod::lemma_div_is_ordered((rest * num) as int, (rest * den) as int, den as int);
    assert(whole * den == den * whole) by (nonlinear_arith);
}

impl WeightToFeeCoefficient {
    /// Whether the fractional part is a proper fraction.
    pub open spec fn spec_well_formed(self) -> bool {
        self.coeff_frac.spec_well_formed()
    }

    /// The weight raised to the degree of the term, saturating at `cap`.
    pub open spec fn spec_weight_power(self, weight: Weight, cap: Balance) -> nat {
        spec_saturate(spec_power(spec_saturate(weight as nat, cap), self.degree as nat), cap)
    }

    /// What the fractional part of the coefficient contributes.
    pub open spec fn spec_frac_part(self, weight: Weight, cap: Balance) -> nat {
        self.coeff_frac.spec_of(self.spec_weight_power(weight, cap))
    }

    /// What the integer part of the coefficient contributes, saturating.
    pub open spec fn spec_integer_part(self, weight: Weight, cap: Balance) -> nat {
        spec_saturate(self.coeff_integer as nat * self.spec_weight_power(weight, cap), cap)
    }

    /// The running sum `acc` with this term taken in. A positive term adds
    /// its two parts and stops at `cap`; a negative one takes them away and
    /// stops at zero.
    pub open spec fn spec_apply(self, acc: nat, weight: Weight, cap: Balance) -> nat {
        if self.negative {
            let less = if acc >= self.spec_frac_part(weight, cap) {
                (acc - self.spec_frac_part(weight, cap)) as nat
            } else {
                0
            };
            if less >= self.spec_integer_part(weight, cap) {
                (less - self.spec_integer_part(weight, cap)) as nat
            } else {
                0
            }
        } else {
            spec_saturate(
                spec_saturate(acc + self.spec_frac_part(weight, cap), cap)
                    + self.spec_integer_part(weight, cap),
                cap,
            )
        }
    }

    /// The weight raised to the degree of the term, saturating at `cap`.
    pub fn weight_power(&self, weight: Weight, cap: Balance) -> (power: Balance)
        ensures
            power == self.spec_weight_power(weight, cap),
            power <= cap,
    {
        let base: u128 = saturate(weight as u128, cap);
        let mut power: u128 = saturate(1, cap);
        let mut i: u8 = 0;
        while i < self.degree
            invariant
                i <= self.degree,
                base == spec_saturate(weight as nat, cap),
                power == spec_saturate(spec_power(base as nat, i as nat), cap),
            decreases self.degree - i,
        {
            proof {
                lemma_power_step(base as nat, i as nat, cap);
            }
            power = match power.checked_mul(base) {
                Some(next) => saturate(next, cap),
                None => cap,
            };
            i = i + 1;
        }
        power
    }

    /// The running sum `acc` with this term taken in.
    pub fn apply(&self, acc: Balance, weight: Weight, cap: Balance) -> (sum: Balance)
        requires
            self.spec_well_formed(),
        ensures
            sum == self.spec_apply(acc as nat, weight, cap),
    {
        let power = self.weight_power(weight, cap);
        let frac = self.coeff_frac.of(power);
        let integer = match self.coeff_integer.checked_mul(power) {
            Some(product) => saturate(product, cap),
            None => cap,
        };
        if self.negative {
            acc.saturating_sub(frac).saturating_sub(integer)
        } else {
            saturate(saturate(acc.saturating_add(frac), cap).saturating_add(integer), cap)
        }
    }
}

/// `x`, or `cap` where `x` is beyond it.
pub fn saturate(x: Balance, cap: Balance) -> (r: Balance)
    ensures
        r == spec_saturate(x as nat, cap),
{
    if x > cap {
        cap
    } else {
        x
    }
}

/// One more factor on a saturated power: the saturated product of the
/// saturated power and the base is the saturated next power.
proof fn lemma_power_step(base: nat, exp: nat, cap: Balance)
    ensures
        spec_power(base, exp + 1) == base * spec_power(base, exp),
        spec_saturate(spec_saturate(spec_power(base, exp), cap) * base, cap) == spec_saturate(
            spec_power(base, exp + 1),
            cap,
        ),
{
    let p = spec_power(base, exp);
    assert(spec_power(base, exp + 1) == base * spec_power(base, ((exp + 1) - 1) as nat));
    assert(base * p == p * base) by (nonlinear_arith);
    if p > cap {
        if base == 0 {
            assert(p * base == 0) by (nonlinear_arith)
                requires
                    base == 0,
            ;
            assert((cap as nat) * base == 0) by (nonlinear_arith)
                requires
                    base == 0,
            ;
        } else {
            assert(p * base >= p) by (nonlinear_arith)
                requires
                    base >= 1,
            ;
            assert((cap as nat) * base >= cap as nat) by (nonlinear_arith)
                requires
                    base >= 1,
            ;
        }
    }
}

/// The fee for `weight` under the terms `terms`, taken in first to last, on
/// a chain whose largest balance is `cap`.
pub open spec fn spec_fee(terms: Seq<WeightToFeeCoefficient>, weight: Weight, cap: Balance) -> nat
    decreases terms.len(),
{
    if terms.len() == 0 {
        0
    } else {
        terms.last().spec_apply(spec_fee(terms.drop_last(), weight, cap), weight, cap)
    }
}

/// Whether every term is well formed.
pub open spec fn spec_terms_well_formed(terms: Seq<WeightToFeeCoefficient>) -> bool {
    forall|i: int| 0 <= i < terms.len() ==> (#[trigger] terms[i]).spec_well_formed()
}

/// The term `(p / q) * weight`, split into the integer part `p / q` and the
/// fraction `(p % q) / q`.
pub open spec fn spec_linear_coefficient(p: Balance, q: u64) -> WeightToFeeCoefficient {
    WeightToFeeCoefficient {
        coeff_integer: p / (q as u128),
        coeff_frac: Ratio { numerator: (p % (q as u128)) as u64, denominator: q },
        negative: false,
        degree: 1,
    }
}

/// The term `(p / q) * weight`.
pub fn linear_coefficient(p: Balance, q: u64) -> (term: WeightToFeeCoefficient)
    requires
        q > 0,
    ensures
        term == spec_linear_coefficient(p, q),
        term.spec_well_formed(),
{
    let den: u128 = q as u128;
    WeightToFeeCoefficient {
        coeff_integer: p / den,
        coeff_frac: Ratio { numerator: (p % den) as u64, denominator: q },
        negative: false,
        degree: 1,
    }
}

/// The fee for `weight` under the schedule `terms`, on a chain whose largest
/// balance is `cap`.
pub fn fee(terms: &WeightToFeeCoefficients, weight: Weight, cap: Balance) -> (total: Balance)
    requires
        spec_terms_well_formed(spec_terms(*terms)),
    ensures
        total == spec_fee(spec_terms(*terms), weight, cap),
{
    let n = terms_len(terms);
    let mut total: Balance = 0;
    let mut i: usize = 0;
    while i < n
        invariant
            i <= n,
            n == spec_terms(*terms).len(),
            spec_terms_well_formed(spec_terms(*terms)),
            total == spec_fee(spec_terms(*terms).subrange(0, i as int), weight, cap),
        decreases n - i,
    {
        let term = terms_get(terms, i);
        proof {
            let all = spec_terms(*terms);
            assert(all.subrange(0, i + 1).drop_last() == all.subrange(0, i as int));
            assert(all.subrange(0, i + 1).last() == all[i as int]);
        }
        total = term.apply(total, weight, cap);
        i = i + 1;
    }
    assert(spec_terms(*terms).subrange(0, i as int) == spec_terms(*terms));
    total
}

/// A fee under a schedule of well-formed terms is never above the largest
/// balance of the chain.
pub proof fn lemma_fee_is_capped(terms: Seq<WeightToFeeCoefficient>, weight: Weight, cap: Balance)
    ensures
        spec_fee(terms, weight, cap) <= cap,
    decreases terms.len(),
{
    if terms.len() > 0 {
        lemma_fee_is_capped(terms.drop_last(), weight, cap);
    }
}

/// A schedule of the single term `(p / q) * weight` charges the exact
/// quotient `p * weight / q`, rounded down, for every weight that the
/// balance of the chain can hold, and never more than the largest balance:
/// splitting the coefficient loses nothing.
pub proof fn lemma_linear_fee_is_exact(p: Balance, q: u64, weight: Weight, cap: Balance)
    requires
        q > 0,
    ensures
        spec_fee(seq![spec_linear_coefficient(p, q)], weight, cap) == spec_saturate(
            ((p as nat) * spec_saturate(weight as nat, cap)) / (q as nat),
            cap,
        ),
        weight <= cap ==> spec_fee(seq![spec_linear_coefficient(p, q)], weight, cap)
            == spec_saturate(((p as nat) * (weight as nat)) / (q as nat), cap),
{
    let term = spec_linear_coefficient(p, q);
    let terms = seq![term];
    let w = spec_saturate(weight as nat, cap);
    let d = q as nat;
    let whole = (p as nat) / d;
    let rest = (p as nat) % d;
    assert(terms.drop_last() == Seq::<WeightToFeeCoefficient>::empty());
    assert(terms.last() == term);
    assert(spec_fee(terms.drop_last(), weight, cap) == 0);
    assert(spec_power(w, 1) == w * spec_power(w, 0));
    assert(w * 1 == w) by (nonlinear_arith);
    assert(term.spec_weight_power(weight, cap) == w);
    lemma_fundamental_div_mod(p as int, q as int);
    assert(p * w == rest * w + (whole * w) * d) by (nonlinear_arith)
        requires
            p == d * whole + rest,
    ;
    lemma_hoist_over_denominator((rest * w) as int, (whole * w) as int, d);
    assert(w * rest == rest * w) by (nonlinear_arith);
    assert(term.spec_frac_part(weight, cap) == (rest * w) / d);
    assert(term.spec_integer_part(weight, cap) == spec_saturate(whole * w, cap));
    assert((rest * w) / d <= w) by {
        assert(rest * w <= d * w) by (nonlinear_arith)
            requires
                rest < d,
        ;
        assert((d * w) / d == w) by (nonlinear_arith)
            requires
                d > 0,
        ;
        vstd::arithmetic::div_mod::lemma_div_is_ordered((rest * w) as int, (d * w) as int, d as int);
    }
}

} // verus!
