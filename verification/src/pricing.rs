//! The escalating paid-vote price curve.
//!
//! The i-th additional vote on a candidate that already holds `v` votes is
//! priced by its tier `(v + i) / 10`: each completed block of ten votes
//! multiplies the unit price by three halves, with truncating division.
//! The executable computation mirrors the checked arithmetic of the ledger
//! program: every power, product and sum is checked in 128-bit arithmetic
//! and the total must fit in 64 bits, else the purchase aborts.

use vstd::prelude::*;
use vstd::arithmetic::power::{pow, lemma_pow0, lemma_pow_positive, lemma_pow_increases};
use vstd::arithmetic::div_mod::{
    lemma_div_pos_is_pos, lemma_div_is_ordered, lemma_div_denominator, lemma_div_by_multiple,
    lemma_div_multiples_vanish_fancy, lemma_fundamental_div_mod,
    lemma_fundamental_div_mod_converse, lemma_mod_division_less_than_divisor,
};
use vstd::arithmetic::mul::{
    lemma_mul_nonnegative, lemma_mul_inequality, lemma_mul_is_associative,
    lemma_mul_is_commutative,
};
use crate::errors::ChumError;

verus! {

/// The pricing tier of a candidate holding `votes` votes.
pub open spec fn vote_tier(votes: int) -> nat {
    (votes / 10) as nat
}

/// The unit price at a given tier: `base * 3^tier / 2^tier`, truncating.
pub open spec fn tier_price(base: int, tier: nat) -> int {
    base * pow(3, tier) / pow(2, tier)
}

/// The price of the next vote on a candidate holding `votes` votes.
pub open spec fn unit_price(base: int, votes: int) -> int {
    tier_price(base, vote_tier(votes))
}

/// The total cost of `n` votes bought on a candidate holding `current`
/// votes, each unit priced at its own tier.
pub open spec fn total_cost(base: int, current: int, n: nat) -> int
    decreases n,
{
    if n == 0 {
        0
    } else {
        unit_price(base, current) + total_cost(base, current + 1, (n - 1) as nat)
    }
}

/// The checked computation of one unit succeeds iff both powers and the
/// product with the base fit in 128 bits.
pub open spec fn unit_fits(base: int, votes: int) -> bool {
    &&& pow(3, vote_tier(votes)) <= u128::MAX
    &&& pow(2, vote_tier(votes)) <= u128::MAX
    &&& base * pow(3, vote_tier(votes)) <= u128::MAX
}

pub open spec fn all_units_fit(base: int, current: int, n: nat) -> bool
    decreases n,
{
    n == 0 || (unit_fits(base, current) && all_units_fit(base, current + 1, (n - 1) as nat))
}

/// Exactly when the checked purchase computation returns a total: every
/// unit's arithmetic fits in 128 bits and the total fits in 64.
pub open spec fn cost_fits(base: int, current: int, n: nat) -> bool {
    all_units_fit(base, current, n) && total_cost(base, current, n) <= u64::MAX
}

/// One unfolding step of an opaque power.
proof fn lemma_pow_step(b: int, t: nat)
    ensures
        pow(b, t + 1) == b * pow(b, t),
{
    reveal(pow);
}

pub proof fn lemma_unit_price_nonneg(base: int, votes: int)
    requires
        base >= 0,
    ensures
        unit_price(base, votes) >= 0,
{
    let t = vote_tier(votes);
    lemma_pow_positive(3, t);
    lemma_pow_positive(2, t);
    lemma_mul_nonnegative(base, pow(3, t));
    lemma_div_pos_is_pos(base * pow(3, t), pow(2, t));
}

pub proof fn lemma_total_cost_nonneg(base: int, current: int, n: nat)
    requires
        base >= 0,
    ensures
        total_cost(base, current, n) >= 0,
    decreases n,
{
    if n > 0 {
        lemma_unit_price_nonneg(base, current);
        lemma_total_cost_nonneg(base, current + 1, (n - 1) as nat);
    }
}

/// Peeling the last unit off a purchase.
proof fn lemma_total_cost_snoc(base: int, current: int, n: nat)
    ensures
        total_cost(base, current, n + 1) == total_cost(base, current, n) + unit_price(
            base,
            current + n,
        ),
    decreases n,
{
    if n == 0 {
        assert(total_cost(base, current + 1, 0) == 0);
    } else {
        lemma_total_cost_snoc(base, current + 1, (n - 1) as nat);
    }
}

proof fn lemma_all_units_fit_snoc(base: int, current: int, n: nat)
    ensures
        all_units_fit(base, current, n + 1) == (all_units_fit(base, current, n) && unit_fits(
            base,
            current + n,
        )),
    decreases n,
{
    if n == 0 {
        assert(all_units_fit(base, current + 1, 0));
    } else {
        lemma_all_units_fit_snoc(base, current + 1, (n - 1) as nat);
    }
}

proof fn lemma_all_units_fit_index(base: int, current: int, n: nat, i: nat)
    requires
        all_units_fit(base, current, n),
        i < n,
    ensures
        unit_fits(base, current + i),
    decreases i,
{
    if i > 0 {
        lemma_all_units_fit_index(base, current + 1, (n - 1) as nat, (i - 1) as nat);
    }
}

/// A purchase costs at least as much as any shorter purchase from the same
/// starting count.
proof fn lemma_total_cost_mono_n(base: int, current: int, m: nat, n: nat)
    requires
        base >= 0,
        m <= n,
    ensures
        total_cost(base, current, m) <= total_cost(base, current, n),
    decreases m,
{
    if m > 0 {
        lemma_total_cost_mono_n(base, current + 1, (m - 1) as nat, (n - 1) as nat);
    } else {
        lemma_total_cost_nonneg(base, current, n);
    }
}

proof fn lemma_pow3_ge_pow2(t: nat)
    ensures
        pow(3, t) >= pow(2, t) > 0,
    decreases t,
{
    lemma_pow_positive(2, t);
    if t == 0 {
        lemma_pow0(3);
        lemma_pow0(2);
    } else {
        let s = (t - 1) as nat;
        lemma_pow3_ge_pow2(s);
        lemma_pow_step(3, s);
        lemma_pow_step(2, s);
        lemma_mul_inequality(pow(2, s), pow(3, s), 3);
        lemma_mul_is_commutative(pow(2, s), 3);
        lemma_mul_is_commutative(pow(3, s), 3);
        lemma_mul_inequality(2, 3, pow(2, s));
        lemma_mul_is_commutative(2, pow(2, s));
        lemma_mul_is_commutative(3, pow(2, s));
    }
}

/// The unit price never falls from one tier to the next.
proof fn lemma_tier_price_step(base: int, t: nat)
    requires
        base >= 0,
    ensures
        tier_price(base, t) <= tier_price(base, t + 1),
{
    let a = base * pow(3, t);
    let d = pow(2, t);
    lemma_pow_positive(3, t);
    lemma_pow_positive(2, t);
    lemma_mul_nonnegative(base, pow(3, t));
    lemma_pow_step(3, t);
    lemma_pow_step(2, t);
    // base * (3 * pow(3, t)) == 3 * a
    lemma_mul_is_associative(base, 3, pow(3, t));
    lemma_mul_is_commutative(base, 3);
    lemma_mul_is_associative(3, base, pow(3, t));
    // a / d == (2 * a) / (2 * d)
    assert((2 * a) / 2 == a) by {
        lemma_div_multiples_vanish_fancy(a, 0, 2);
    }
    lemma_div_denominator(2 * a, 2, d);
    assert(a / d == (2 * a) / (2 * d));
    // 2 * a <= 3 * a, so (2 * a) / (2 * d) <= (3 * a) / (2 * d)
    lemma_div_is_ordered(2 * a, 3 * a, 2 * d);
}

proof fn lemma_tier_price_mono(base: int, t1: nat, t2: nat)
    requires
        base >= 0,
        t1 <= t2,
    ensures
        tier_price(base, t1) <= tier_price(base, t2),
    decreases t2 - t1,
{
    if t1 < t2 {
        lemma_tier_price_step(base, t1);
        lemma_tier_price_mono(base, t1 + 1, t2);
    }
}

/// The price of a vote never falls as the candidate's vote count grows.
pub proof fn lemma_unit_price_mono(base: int, v1: int, v2: int)
    requires
        base >= 0,
        0 <= v1 <= v2,
    ensures
        unit_price(base, v1) <= unit_price(base, v2),
{
    lemma_div_is_ordered(v1, v2, 10);
    lemma_tier_price_mono(base, vote_tier(v1), vote_tier(v2));
}

/// Law: the total cost of buying `n` votes is non-decreasing in the
/// candidate's accumulated vote count.
pub proof fn lemma_total_cost_nondecreasing(base: int, c1: int, c2: int, n: nat)
    requires
        base >= 0,
        0 <= c1 <= c2,
    ensures
        total_cost(base, c1, n) <= total_cost(base, c2, n),
    decreases n,
{
    if n > 0 {
        lemma_unit_price_mono(base, c1, c2);
        lemma_total_cost_nondecreasing(base, c1 + 1, c2 + 1, (n - 1) as nat);
    }
}

/// A tier's price is at least the base price.
proof fn lemma_tier_price_ge_base(base: int, t: nat)
    requires
        base >= 0,
    ensures
        tier_price(base, t) >= base,
{
    lemma_pow3_ge_pow2(t);
    lemma_mul_inequality(pow(2, t), pow(3, t), base);
    lemma_mul_is_commutative(pow(2, t), base);
    lemma_mul_is_commutative(pow(3, t), base);
    lemma_div_is_ordered(base * pow(2, t), base * pow(3, t), pow(2, t));
    lemma_div_by_multiple(base, pow(2, t));
}

/// Law: crossing a multiple-of-10 boundary raises the unit price by the
/// tier ratio of three halves (truncating), and strictly, whenever the base
/// price is at least 2.
pub proof fn lemma_unit_price_tier_boundary(base: int, v: int)
    requires
        base >= 2,
        v >= 0,
        (v + 1) % 10 == 0,
    ensures
        unit_price(base, v + 1) >= unit_price(base, v) * 3 / 2,
        unit_price(base, v + 1) > unit_price(base, v),
{
    let t = vote_tier(v);
    // (v + 1) / 10 == v / 10 + 1, since v + 1 is a multiple of 10.
    let q = (v + 1) / 10;
    lemma_fundamental_div_mod(v + 1, 10);
    lemma_div_pos_is_pos(v + 1, 10);
    lemma_fundamental_div_mod_converse(v, 10, q - 1, 9);
    assert(vote_tier(v + 1) == t + 1);

    let p = tier_price(base, t);
    let a = base * pow(3, t);
    let d = pow(2, t);
    lemma_pow_positive(3, t);
    lemma_pow_positive(2, t);
    lemma_mul_nonnegative(base, pow(3, t));
    lemma_tier_price_ge_base(base, t);
    // a >= d * p, by the fundamental division identity.
    lemma_fundamental_div_mod(a, d);
    lemma_mod_division_less_than_divisor(a, d);
    assert(a >= d * p);
    // 3 * a >= (3 * p) * d
    lemma_mul_is_commutative(d, p);
    lemma_mul_is_associative(3, p, d);
    assert(3 * a >= (3 * p) * d);
    // tier_price at t + 1 is (3 * a) / (2 * d).
    lemma_pow_step(3, t);
    lemma_pow_step(2, t);
    lemma_mul_is_associative(base, 3, pow(3, t));
    lemma_mul_is_commutative(base, 3);
    lemma_mul_is_associative(3, base, pow(3, t));
    lemma_mul_nonnegative(3 * p, d);
    lemma_div_is_ordered((3 * p) * d, 3 * a, 2 * d);
    // ((3 * p) * d) / (2 * d) == (3 * p) / 2
    lemma_div_denominator((3 * p) * d, d, 2);
    lemma_mul_is_commutative(d, 2);
    lemma_div_by_multiple(3 * p, d);
    assert(tier_price(base, t + 1) >= (3 * p) / 2);
    // (3 * p) / 2 == p + p / 2 >= p + 1, since p >= 2.
    let ph = p / 2;
    let pr = p % 2;
    lemma_fundamental_div_mod(p, 2);
    lemma_mod_division_less_than_divisor(p, 2);
    assert(3 * p == 2 * (p + ph) + pr);
    lemma_fundamental_div_mod_converse(3 * p, 2, p + ph, pr);
    lemma_div_is_ordered(2, p, 2);
    assert(ph >= 1);
}

/// Multiplies `b` by itself `e` times in 128 bits, reporting overflow the
/// way a checked power would.
fn checked_pow_u128(b: u128, e: u32) -> (r: Option<u128>)
    requires
        b >= 1,
    ensures
        match r {
            Some(p) => p == pow(b as int, e as nat) && pow(b as int, e as nat) <= u128::MAX,
            None => pow(b as int, e as nat) > u128::MAX,
        },
{
    proof {
        lemma_pow0(b as int);
    }
    let mut acc: u128 = 1;
    let mut i: u32 = 0;
    while i < e
        invariant
            b >= 1,
            i <= e,
            acc == pow(b as int, i as nat),
        decreases e - i,
    {
        proof {
            lemma_pow_step(b as int, i as nat);
        }
        match acc.checked_mul(b) {
            Some(next) => {
                acc = next;
                i = i + 1;
            },
            None => {
                proof {
                    lemma_pow_increases(b as nat, (i + 1) as nat, e as nat);
                }
                return None;
            },
        }
    }
    Some(acc)
}

/// The total cost of `num_votes` paid votes on a candidate already holding
/// `current_votes`, computed with checked arithmetic: any overflow along
/// the way aborts the purchase.
pub fn compute_vote_cost(base_price: u64, current_votes: u32, num_votes: u32) -> (r: Result<
    u64,
    ChumError,
>)
    ensures
        match r {
            Ok(c) => cost_fits(base_price as int, current_votes as int, num_votes as nat) && c
                == total_cost(base_price as int, current_votes as int, num_votes as nat),
            Err(e) => e == ChumError::MathOverflow && !cost_fits(
                base_price as int,
                current_votes as int,
                num_votes as nat,
            ),
        },
{
    let ghost base = base_price as int;
    let ghost cur = current_votes as int;
    let ghost n = num_votes as nat;
    let mut total: u128 = 0;
    let mut i: u32 = 0;
    while i < num_votes
        invariant
            i <= num_votes,
            base == base_price as int,
            cur == current_votes as int,
            n == num_votes as nat,
            total == total_cost(base, cur, i as nat),
            all_units_fit(base, cur, i as nat),
        decreases num_votes - i,
    {
        let votes_now: u64 = current_votes as u64 + i as u64;
        proof {
            lemma_div_is_ordered(votes_now as int, 0x1_FFFF_FFFEu64 as int, 10);
        }
        let tier: u32 = (votes_now / 10) as u32;
        assert(tier as nat == vote_tier(cur + i));
        let pow3 = match checked_pow_u128(3, tier) {
            Some(p) => p,
            None => {
                proof {
                    lemma_cost_unfit_at(base, cur, n, i as nat);
                }
                return Err(ChumError::MathOverflow);
            },
        };
        let pow2 = match checked_pow_u128(2, tier) {
            Some(p) => p,
            None => {
                proof {
                    lemma_cost_unfit_at(base, cur, n, i as nat);
                }
                return Err(ChumError::MathOverflow);
            },
        };
        let scaled = match (base_price as u128).checked_mul(pow3) {
            Some(p) => p,
            None => {
                proof {
                    lemma_cost_unfit_at(base, cur, n, i as nat);
                }
                return Err(ChumError::MathOverflow);
            },
        };
        proof {
            lemma_pow_positive(2, tier as nat);
        }
        let price = scaled / pow2;
        assert(price == unit_price(base, cur + i));
        let next_total = match total.checked_add(price) {
            Some(t) => t,
            None => {
                proof {
                    lemma_total_cost_snoc(base, cur, i as nat);
                    lemma_total_cost_mono_n(base, cur, (i + 1) as nat, n);
                }
                return Err(ChumError::MathOverflow);
            },
        };
        proof {
            lemma_total_cost_snoc(base, cur, i as nat);
            lemma_all_units_fit_snoc(base, cur, i as nat);
        }
        total = next_total;
        i = i + 1;
    }
    if total > u64::MAX as u128 {
        return Err(ChumError::MathOverflow);
    }
    Ok(total as u64)
}

/// If one unit's arithmetic does not fit, the whole purchase does not.
proof fn lemma_cost_unfit_at(base: int, current: int, n: nat, i: nat)
    requires
        i < n,
        !unit_fits(base, current + i),
    ensures
        !cost_fits(base, current, n),
{
    if all_units_fit(base, current, n) {
        lemma_all_units_fit_index(base, current, n, i);
    }
}

} // verus!
