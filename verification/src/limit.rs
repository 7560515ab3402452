//! The credit limit: the share of a collateral balance that may be borrowed.

use vstd::prelude::*;
use vstd::arithmetic::div_mod::lemma_fundamental_div_mod_converse;

verus! {

/// One hundred percent, in basis points.
pub const BASIS_POINTS: u32 = 10000;

/// The loan-to-value ratio that a freshly initialized credit line uses: 70%.
pub const DEFAULT_LTV_RATIO: u32 = 7000;

/// The largest debt that `collateral` units back at `ltv_ratio` basis points:
/// `collateral * ltv_ratio / 10000`, rounded down.
pub open spec fn credit_limit(collateral: int, ltv_ratio: int) -> int {
    (collateral * ltv_ratio) / 10000
}

/// What the roundings of two limits lose together against the limit of the
/// sum: one unit where the two remainders reach a whole, else nothing.
pub open spec fn rounding_carry(first: int, second: int, ltv_ratio: int) -> int {
    if (first * ltv_ratio) % 10000 + (second * ltv_ratio) % 10000 >= 10000 {
        1
    } else {
        0
    }
}

/// Splitting the collateral into whole ten-thousands and a rest loses nothing:
/// the limit is the ratio times the whole part, plus the limit of the rest.
pub proof fn lemma_credit_limit_split(collateral: int, ltv_ratio: int)
    requires
        0 <= collateral,
        0 <= ltv_ratio,
    ensures
        credit_limit(collateral, ltv_ratio) == (collateral / 10000) * ltv_ratio + credit_limit(
            collateral % 10000,
            ltv_ratio,
        ),
{
    let whole = collateral / 10000;
    let rest = collateral % 10000;
    let rest_scaled = rest * ltv_ratio;
    assert(collateral == 10000 * whole + rest);
    assert(0 <= rest_scaled) by (nonlinear_arith)
        requires
            0 <= rest,
            0 <= ltv_ratio,
            rest_scaled == rest * ltv_ratio,
    ;
    assert(collateral * ltv_ratio == 10000 * (whole * ltv_ratio) + rest_scaled)
        by (nonlinear_arith)
        requires
            collateral == 10000 * whole + rest,
            rest_scaled == rest * ltv_ratio,
    ;
    let q = rest_scaled / 10000;
    let r = rest_scaled % 10000;
    assert(collateral * ltv_ratio == (whole * ltv_ratio + q) * 10000 + r);
    lemma_fundamental_div_mod_converse(collateral * ltv_ratio, 10000, whole * ltv_ratio + q, r);
}

/// The limit lies between zero and the collateral when the ratio is at most
/// one hundred percent.
pub proof fn lemma_credit_limit_bounds(collateral: int, ltv_ratio: int)
    requires
        0 <= collateral,
        0 <= ltv_ratio <= 10000,
    ensures
        0 <= credit_limit(collateral, ltv_ratio) <= collateral,
{
    assert(0 <= collateral * ltv_ratio <= collateral * 10000) by (nonlinear_arith)
        requires
            0 <= collateral,
            0 <= ltv_ratio <= 10000,
    ;
}

/// More collateral never lowers the limit.
pub proof fn lemma_credit_limit_monotonic(smaller: int, larger: int, ltv_ratio: int)
    requires
        smaller <= larger,
        0 <= ltv_ratio,
    ensures
        credit_limit(smaller, ltv_ratio) <= credit_limit(larger, ltv_ratio),
{
    assert(smaller * ltv_ratio <= larger * ltv_ratio) by (nonlinear_arith)
        requires
            smaller <= larger,
            0 <= ltv_ratio,
    ;
}

/// The limit of two balances held together is the sum of their limits, plus
/// one where the two roundings together lose a whole unit.
pub proof fn lemma_credit_limit_of_sum(first: int, second: int, ltv_ratio: int)
    ensures
        credit_limit(first + second, ltv_ratio) == credit_limit(first, ltv_ratio) + credit_limit(
            second,
            ltv_ratio,
        ) + rounding_carry(first, second, ltv_ratio),
{
    let x = first * ltv_ratio;
    let y = second * ltv_ratio;
    assert((first + second) * ltv_ratio == x + y) by (nonlinear_arith)
        requires
            x == first * ltv_ratio,
            y == second * ltv_ratio,
    ;
    let rests = x % 10000 + y % 10000;
    if rests >= 10000 {
        lemma_fundamental_div_mod_converse(
            x + y,
            10000,
            x / 10000 + y / 10000 + 1,
            rests - 10000,
        );
    } else {
        lemma_fundamental_div_mod_converse(x + y, 10000, x / 10000 + y / 10000, rests);
    }
}

/// Computes the credit limit of a collateral balance without leaving `i128`,
/// whatever the size of the balance.
pub fn compute_credit_limit(collateral: i128, ltv_ratio: u32) -> (limit: i128)
    requires
        0 <= collateral,
        ltv_ratio <= BASIS_POINTS,
    ensures
        limit == credit_limit(collateral as int, ltv_ratio as int),
        0 <= limit <= collateral,
{
    let ratio: i128 = ltv_ratio as i128;
    let whole: i128 = collateral / 10000;
    let rest: i128 = collateral % 10000;
    proof {
        lemma_credit_limit_split(collateral as int, ltv_ratio as int);
        lemma_credit_limit_bounds(collateral as int, ltv_ratio as int);
        lemma_credit_limit_bounds(rest as int, ltv_ratio as int);
        assert(0 <= whole * ratio <= whole * 10000) by (nonlinear_arith)
            requires
                0 <= whole,
                0 <= ratio <= 10000,
        ;
        assert(0 <= rest * ratio <= 10000 * 10000) by (nonlinear_arith)
            requires
                0 <= rest < 10000,
                0 <= ratio <= 10000,
        ;
    }
    whole * ratio + (rest * ratio) / 10000
}

} // verus!
