//! The odds of a match, in whole numbers.
//!
//! Of the `6^n` rolls of `n` dice six are a match, so one trial is a match
//! with probability `1 / 6^(n-1)`. The trials do not depend on one another,
//! so the first match comes at trial `k` with probability
//! `(1 - p)^(k-1) * p`. With `d = 6^(n-1)` that is `(d-1)^(k-1) / d^k`, a
//! fraction of two whole numbers, and the fractions are what this module
//! speaks of.

use vstd::prelude::*;

verus! {

/// `base` to the power `exp`.
pub open spec fn power(base: nat, exp: nat) -> nat
    decreases exp,
{
    if exp == 0 {
        1
    } else {
        base * power(base, (exp - 1) as nat)
    }
}

/// One trial of `num_dice` dice is a match with probability one in this
/// number: `6^(num_dice - 1)`, and one for a single die or none, which cannot
/// disagree.
pub open spec fn match_odds(num_dice: nat) -> nat {
    if num_dice <= 1 {
        1
    } else {
        power(6, (num_dice - 1) as nat)
    }
}

/// The numerator of the probability that the first match comes at `trial`.
pub open spec fn first_match_numerator(num_dice: nat, trial: nat) -> nat
    recommends
        trial >= 1,
{
    power((match_odds(num_dice) - 1) as nat, (trial - 1) as nat)
}

/// The denominator of the probability that the first match comes at `trial`.
pub open spec fn first_match_denominator(num_dice: nat, trial: nat) -> nat
    recommends
        trial >= 1,
{
    power(match_odds(num_dice), trial)
}

/// A power of a positive number is positive.
pub proof fn lemma_power_positive(base: nat, exp: nat)
    requires
        base > 0,
    ensures
        power(base, exp) > 0,
    decreases exp,
{
    if exp > 0 {
        lemma_power_positive(base, (exp - 1) as nat);
        assert(base * power(base, (exp - 1) as nat) > 0) by (nonlinear_arith)
            requires
                base > 0,
                power(base, (exp - 1) as nat) > 0,
        ;
    }
}

/// The powers of six grow with the exponent.
pub proof fn lemma_power_of_six_grows(low: nat, high: nat)
    requires
        low <= high,
    ensures
        power(6, low) <= power(6, high),
    decreases high,
{
    if low < high {
        lemma_power_of_six_grows(low, (high - 1) as nat);
    }
}

/// With two dice or more a match is less than certain: the odds are one in
/// six or longer.
pub proof fn lemma_match_odds_at_least_six(num_dice: nat)
    requires
        num_dice >= 2,
    ensures
        match_odds(num_dice) >= 6,
{
    lemma_power_of_six_grows(1, (num_dice - 1) as nat);
    reveal_with_fuel(power, 2);
}

/// One die more makes a match six times less likely.
pub proof fn lemma_one_more_die(num_dice: nat)
    requires
        num_dice >= 1,
    ensures
        match_odds(num_dice + 1) == 6 * match_odds(num_dice),
{
    reveal_with_fuel(power, 2);
}

/// At the first trial the first match has the probability of a match, and
/// from each trial to the next its probability is multiplied by the
/// probability of no match, `(d - 1) / d`.
pub proof fn lemma_first_match_is_geometric(num_dice: nat, trial: nat)
    requires
        trial >= 1,
    ensures
        first_match_numerator(num_dice, 1) == 1,
        first_match_denominator(num_dice, 1) == match_odds(num_dice),
        first_match_numerator(num_dice, trial + 1) == (match_odds(num_dice) - 1)
            * first_match_numerator(num_dice, trial),
        first_match_denominator(num_dice, trial + 1) == match_odds(num_dice)
            * first_match_denominator(num_dice, trial),
{
    reveal_with_fuel(power, 2);
    if num_dice >= 2 {
        lemma_power_positive(6, (num_dice - 1) as nat);
    }
    let miss = (match_odds(num_dice) - 1) as nat;
    assert(power(miss, trial) == miss * power(miss, (trial - 1) as nat));
    assert(first_match_numerator(num_dice, trial + 1) == power(miss, trial));
}

/// With two dice or more, the probability that the first match comes at a
/// trial is strictly less at the next trial: the two fractions are compared by
/// cross multiplication.
pub proof fn lemma_first_match_strictly_decreases(num_dice: nat, trial: nat)
    requires
        num_dice >= 2,
        trial >= 1,
    ensures
        first_match_numerator(num_dice, trial + 1) * first_match_denominator(num_dice, trial)
            < first_match_numerator(num_dice, trial) * first_match_denominator(
            num_dice,
            trial + 1,
        ),
{
    let d = match_odds(num_dice);
    lemma_match_odds_at_least_six(num_dice);
    let miss = (d - 1) as nat;
    let num = first_match_numerator(num_dice, trial);
    let den = first_match_denominator(num_dice, trial);
    lemma_first_match_is_geometric(num_dice, trial);
    lemma_power_positive(miss, (trial - 1) as nat);
    lemma_power_positive(d, trial);
    assert((miss * num) * den < num * (d * den)) by (nonlinear_arith)
        requires
            miss < d,
            num > 0,
            den > 0,
    ;
}

/// The odds of a match with `num_dice` dice, where the number fits 64 bits.
pub fn match_odds_of(num_dice: usize) -> (odds: Option<u64>)
    ensures
        odds is Some <==> match_odds(num_dice as nat) <= u64::MAX,
        odds matches Some(value) ==> value == match_odds(num_dice as nat),
{
    if num_dice <= 1 {
        return Some(1);
    }
    let mut value: u64 = 1;
    let mut exp: usize = 0;
    while exp < num_dice - 1
        invariant
            num_dice >= 2,
            exp <= num_dice - 1,
            value == power(6, exp as nat),
        decreases num_dice - 1 - exp,
    {
        match value.checked_mul(6) {
            Some(next) => {
                value = next;
            },
            None => {
                proof {
                    lemma_power_of_six_grows((exp + 1) as nat, (num_dice - 1) as nat);
                }
                return None;
            },
        }
        exp = exp + 1;
    }
    Some(value)
}

} // verus!
