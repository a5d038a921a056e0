use vstd::arithmetic::div_mod::{lemma_fundamental_div_mod, lemma_mod_bound};
use vstd::arithmetic::mul::{
    lemma_mul_inequality, lemma_mul_is_commutative, lemma_mul_is_distributive_add,
};
use vstd::prelude::*;

use crate::errors::ContractError;

verus! {

/// Sum of a sequence of distribution shares, as a mathematical integer.
pub open spec fn sum_shares(s: Seq<u32>) -> int
    decreases s.len(),
{
    if s.len() == 0 {
        0
    } else {
        sum_shares(s.drop_last()) + s.last()
    }
}

/// Sum of a sequence of payout amounts, as a mathematical integer.
pub open spec fn sum_amounts(s: Seq<u128>) -> int
    decreases s.len(),
{
    if s.len() == 0 {
        0
    } else {
        sum_amounts(s.drop_last()) + s.last()
    }
}

/// The whole deposit is split into `sum_shares` equal slices by floor
/// division; each winner slot is worth this many units.
pub open spec fn spec_reward_per_share(dist: Seq<u32>, total_deposit: u128) -> int {
    total_deposit as int / sum_shares(dist)
}

/// The payout owed to slot `i`: the per-share reward times the slot's share.
pub open spec fn spec_payout(dist: Seq<u32>, total_deposit: u128, i: int) -> int {
    spec_reward_per_share(dist, total_deposit) * dist[i]
}

/// Payouts for every slot of a distribution, together with what floor
/// division left over. The remainder is not silently dropped: it stays
/// custodied, and callers see exactly how much that is.
#[derive(Debug)]
pub struct PayoutPlan {
    pub payouts: Vec<u128>,
    pub remainder: u128,
}

/// A sum of shares never shrinks when a prefix grows to the whole.
pub proof fn lemma_sum_take_le(s: Seq<u32>, i: int)
    requires
        0 <= i <= s.len(),
    ensures
        sum_shares(s.take(i)) <= sum_shares(s),
        sum_shares(s.take(i)) >= 0,
    decreases s.len(),
{
    if s.len() == 0 {
    } else if i == s.len() {
        assert(s.take(i) =~= s);
        lemma_sum_take_le(s.drop_last(), i - 1);
    } else {
        assert(s.take(i) =~= s.drop_last().take(i));
        lemma_sum_take_le(s.drop_last(), i);
    }
}

/// Each share is at most the sum of all shares.
proof fn lemma_share_le_sum(s: Seq<u32>, i: int)
    requires
        0 <= i < s.len(),
    ensures
        s[i] <= sum_shares(s),
    decreases s.len(),
{
    if i == s.len() - 1 {
        lemma_sum_take_le(s, i);
        assert(s.take(s.len() - 1) =~= s.drop_last());
    } else {
        lemma_share_le_sum(s.drop_last(), i);
    }
}

/// Growing a prefix of shares by one element grows its sum by that element.
proof fn lemma_sum_take_succ(s: Seq<u32>, i: int)
    requires
        0 <= i < s.len(),
    ensures
        sum_shares(s.take(i + 1)) == sum_shares(s.take(i)) + s[i],
{
    assert(s.take(i + 1).drop_last() =~= s.take(i));
    assert(s.take(i + 1).last() == s[i]);
}

/// A non-empty distribution of positive shares has a positive sum.
pub proof fn lemma_positive_shares_sum_positive(s: Seq<u32>)
    requires
        s.len() > 0,
        forall|i: int| 0 <= i < s.len() ==> s[i] > 0,
    ensures
        sum_shares(s) > 0,
{
    lemma_sum_take_le(s, s.len() - 1);
    assert(s.take(s.len() - 1) =~= s.drop_last());
    assert(sum_shares(s.drop_last()) >= 0);
}

/// Sum every share of a distribution. The result fits in `u128`
/// because there are fewer than `2^64` entries of less than `2^32` each.
pub fn total_shares(dist: &Vec<u32>) -> (t: u128)
    ensures
        t as int == sum_shares(dist@),
{
    let mut t: u128 = 0;
    let mut k: usize = 0;
    while k < dist.len()
        invariant
            k <= dist@.len(),
            t as int == sum_shares(dist@.take(k as int)),
            t as int <= (k as int) * 0xffff_ffff,
        decreases dist@.len() - k,
    {
        proof {
            lemma_sum_take_succ(dist@, k as int);
        }
        t = t + (dist[k] as u128);
        k += 1;
    }
    proof {
        assert(dist@.take(dist@.len() as int) =~= dist@);
    }
    t
}

/// Convert a round's custodied deposit and distribution shares into
/// exact per-slot payouts by floor division.
///
/// Fails with `ZeroShares` exactly when the shares sum to zero. On
/// success the payouts never overshoot the deposit: their sum is
/// `reward_per_share * sum_shares <= total_deposit`, and the plan's
/// `remainder` names the difference, which stays custodied.
pub fn compute_payouts(winners_distribution: &Vec<u32>, total_deposit: u128) -> (r: Result<
    PayoutPlan,
    ContractError,
>)
    ensures
        sum_shares(winners_distribution@) == 0 ==> r == Err::<PayoutPlan, ContractError>(
            ContractError::ZeroShares,
        ),
        sum_shares(winners_distribution@) != 0 ==> r is Ok && {
            let plan = r.unwrap();
            &&& plan.payouts@.len() == winners_distribution@.len()
            &&& forall|i: int|
                0 <= i < winners_distribution@.len() ==> plan.payouts@[i] as int == spec_payout(
                    winners_distribution@,
                    total_deposit,
                    i,
                )
            &&& sum_amounts(plan.payouts@) == spec_reward_per_share(
                winners_distribution@,
                total_deposit,
            ) * sum_shares(winners_distribution@)
            &&& sum_amounts(plan.payouts@) <= total_deposit
            &&& plan.remainder as int == total_deposit - sum_amounts(plan.payouts@)
        },
{
    let shares = total_shares(winners_distribution);
    if shares == 0 {
        return Err(ContractError::ZeroShares);
    }
    let ghost dist = winners_distribution@;
    let ghost s_total = sum_shares(dist);
    let reward_per_share = total_deposit / shares;
    let ghost q = reward_per_share as int;
    proof {
        lemma_fundamental_div_mod(total_deposit as int, s_total);
        lemma_mod_bound(total_deposit as int, s_total);
        assert(s_total * q <= total_deposit);
        lemma_mul_is_commutative(q, s_total);
        assert(q * s_total <= total_deposit);
    }
    let mut payouts: Vec<u128> = Vec::new();
    let mut paid: u128 = 0;
    let mut k: usize = 0;
    while k < winners_distribution.len()
        invariant
            k <= dist.len(),
            dist == winners_distribution@,
            s_total == sum_shares(dist),
            q == reward_per_share as int,
            q >= 0,
            q * s_total <= total_deposit,
            payouts@.len() == k,
            forall|i: int| 0 <= i < k ==> payouts@[i] as int == q * dist[i],
            paid as int == sum_amounts(payouts@),
            paid as int == q * sum_shares(dist.take(k as int)),
        decreases dist.len() - k,
    {
        proof {
            lemma_share_le_sum(dist, k as int);
            assert(q * dist[k as int] <= q * s_total) by {
                lemma_mul_inequality(dist[k as int] as int, s_total, q);
                lemma_mul_is_commutative(q, dist[k as int] as int);
                lemma_mul_is_commutative(q, s_total);
            }
            lemma_sum_take_succ(dist, k as int);
            lemma_sum_take_le(dist, k as int);
            lemma_sum_take_le(dist, k as int + 1);
            assert(q * sum_shares(dist.take(k as int + 1)) <= q * s_total) by {
                lemma_mul_inequality(sum_shares(dist.take(k as int + 1)), s_total, q);
                lemma_mul_is_commutative(q, sum_shares(dist.take(k as int + 1)));
                lemma_mul_is_commutative(q, s_total);
            }
            lemma_mul_is_distributive_add(q, sum_shares(dist.take(k as int)), dist[k as int] as int);
        }
        let p = reward_per_share * (winners_distribution[k] as u128);
        let ghost old_payouts = payouts@;
        payouts.push(p);
        proof {
            assert(payouts@.drop_last() =~= old_payouts);
        }
        paid = paid + p;
        k += 1;
    }
    proof {
        assert(dist.take(dist.len() as int) =~= dist);
    }
    let remainder = total_deposit - paid;
    Ok(PayoutPlan { payouts, remainder })
}

} // verus!
