//! System-wide laws of the accounting core, proved from the same spec
//! functions the operation contracts are stated over.

use vstd::prelude::*;

use vstd::arithmetic::div_mod::{
    lemma_div_is_ordered, lemma_div_multiples_vanish, lemma_div_pos_is_pos,
    lemma_fundamental_div_mod,
};
use vstd::arithmetic::mul::{
    lemma_mul_inequality, lemma_mul_is_commutative, lemma_mul_is_distributive_add,
    lemma_mul_nonnegative,
};

use crate::pool_ops::shares_to_mint;
use crate::pool_state::{PoolState, UserState, PRECISION};
use crate::rewards::{earned_amount, pending_global_reward, stepped_pending};

verus! {

/// Share peg: minting is proportional ownership up to one floor rounding.
///
/// For a deposit worth `deposit_usd` against a pool holding `aum` USD with
/// `supply` shares outstanding, the minted share count `m` satisfies
/// `m * aum <= deposit_usd * supply < (m + 1) * aum`: the depositor's share
/// of the pool tracks their share of its value, and the rounding always
/// favors the pool by less than one AUM unit.
pub proof fn lemma_share_peg(deposit_usd: int, supply: u64, aum: int)
    requires
        supply > 0,
        aum >= 1,
        0 <= deposit_usd,
    ensures
        shares_to_mint(deposit_usd, supply, aum) * aum <= deposit_usd * supply,
        deposit_usd * supply < (shares_to_mint(deposit_usd, supply, aum) + 1) * aum,
{
    let p = deposit_usd * supply;
    let m = p / aum;
    lemma_fundamental_div_mod(p, aum);
    lemma_mul_nonnegative(deposit_usd, supply as int);
    assert(p == aum * m + p % aum);
    assert(0 <= p % aum < aum) by {
        vstd::arithmetic::div_mod::lemma_mod_bound(p, aum);
    }
    lemma_mul_is_commutative(aum, m);
    assert((m + 1) * aum == m * aum + aum) by {
        lemma_mul_is_distributive_add(aum, m, 1);
        lemma_mul_is_commutative(aum, m + 1);
    }
}

/// Round trip never gains: depositing and immediately withdrawing loses at
/// least the two fees.
///
/// For a USDC deposit of `amount` into a pool holding `aum0` USD with
/// `supply` shares (an empty share supply only with an empty pool), the
/// shares it mints claim at most the deposit's own net value when withdrawn
/// right back at unchanged price and supply: the returned native amount is
/// at most `amount` less both 0.1% fees.
pub proof fn lemma_round_trip_never_gains(amount: int, aum0: int, supply: int)
    requires
        0 <= amount,
        0 <= aum0,
        0 <= supply,
        supply == 0 ==> aum0 == 0,
    ensures
        ({
            let fee1 = amount / 1000;
            let net = amount - fee1;
            let dusd = net * 100;
            let m = if supply == 0 {
                dusd
            } else {
                (dusd * supply) / (if aum0 >= 1 {
                    aum0
                } else {
                    1
                })
            };
            let usd = (m * (aum0 + dusd)) / (if supply + m >= 1 {
                supply + m
            } else {
                1
            });
            let native = usd / 100;
            let fee2 = native / 1000;
            native - fee2 <= amount - fee1 - fee2 && native <= net
        }),
{
    let fee1 = amount / 1000;
    lemma_div_pos_is_pos(amount, 1000);
    lemma_div_is_ordered(amount, amount * 1000, 1000);
    lemma_mul_is_commutative(amount, 1000);
    lemma_div_multiples_vanish(amount, 1000);
    assert(0 <= fee1 <= amount);
    let net = amount - fee1;
    let dusd = net * 100;
    lemma_mul_nonnegative(net, 100);
    let m = if supply == 0 {
        dusd
    } else {
        (dusd * supply) / (if aum0 >= 1 {
            aum0
        } else {
            1
        })
    };
    // In every case the minted shares' claim on the old value is covered:
    // m * aum0 <= dusd * supply.
    if supply == 0 {
        assert(m * aum0 == 0) by {
            assert(aum0 == 0);
            vstd::arithmetic::mul::lemma_mul_basics(m);
        }
        lemma_mul_nonnegative(dusd, supply);
    } else if aum0 >= 1 {
        lemma_mul_nonnegative(dusd, supply);
        lemma_div_pos_is_pos(dusd * supply, aum0);
        lemma_fundamental_div_mod(dusd * supply, aum0);
        assert(0 <= (dusd * supply) % aum0) by {
            vstd::arithmetic::div_mod::lemma_mod_bound(dusd * supply, aum0);
        }
        lemma_mul_is_commutative(aum0, m);
        assert(m * aum0 <= dusd * supply);
    } else {
        assert(aum0 == 0);
        assert(m * aum0 == 0) by {
            vstd::arithmetic::mul::lemma_mul_basics(m);
        }
        lemma_mul_nonnegative(dusd, supply);
    }
    assert(0 <= m) by {
        if supply > 0 {
            lemma_mul_nonnegative(dusd, supply);
            lemma_div_pos_is_pos(
                dusd * supply,
                if aum0 >= 1 {
                    aum0
                } else {
                    1
                },
            );
        }
    }
    let denom = if supply + m >= 1 {
        supply + m
    } else {
        1
    };
    let usd = (m * (aum0 + dusd)) / denom;
    // m * (aum0 + dusd) <= dusd * (supply + m), so the withdrawn USD value
    // is at most the deposited USD value.
    assert(m * (aum0 + dusd) <= dusd * (supply + m)) by {
        lemma_mul_is_distributive_add(m, aum0, dusd);
        lemma_mul_is_distributive_add(dusd, supply, m);
        lemma_mul_is_commutative(m, aum0);
        lemma_mul_is_commutative(m, dusd);
    }
    if supply + m >= 1 {
        lemma_div_is_ordered(m * (aum0 + dusd), dusd * denom, denom);
        lemma_mul_is_commutative(dusd, denom);
        lemma_div_multiples_vanish(dusd, denom);
        assert(usd <= dusd);
    } else {
        assert(supply == 0 && m == 0);
        assert(m * (aum0 + dusd) == 0) by {
            vstd::arithmetic::mul::lemma_mul_basics(aum0 + dusd);
        }
        assert(usd == 0);
    }
    let native = usd / 100;
    assert(m * (aum0 + dusd) >= 0) by {
        lemma_mul_nonnegative(m, aum0 + dusd);
    }
    lemma_div_pos_is_pos(m * (aum0 + dusd), denom);
    lemma_div_is_ordered(usd, dusd, 100);
    lemma_mul_is_commutative(net, 100);
    lemma_div_multiples_vanish(net, 100);
    assert(native <= net);
}

/// Equal stakes earn equal rewards: one distributor step pays two positions
/// with the same balance and the same checkpoint exactly the same amount,
/// whatever their pending totals.
pub proof fn lemma_equal_positions_equal_rewards(
    pool: PoolState,
    a: UserState,
    b: UserState,
    supply: u64,
    now: u64,
)
    requires
        a.lp_token_balance == b.lp_token_balance,
        a.previous_cumulated_reward_per_token == b.previous_cumulated_reward_per_token,
    ensures
        stepped_pending(pool, a, supply, now) - a.pending_rewards == stepped_pending(
            pool,
            b,
            supply,
            now,
        ) - b.pending_rewards,
{
}

/// Splitting an accrual interval in two changes the earned total by at most
/// one unit, and never upward: accruing over `c0..c1` and then `c1..c2`
/// yields at most what one accrual over `c0..c2` yields, and at most one
/// unit less. A position cannot gain by calling the distributor more often,
/// and loses at most one rounding unit per extra call.
pub proof fn lemma_earned_split(balance: u64, c0: u128, c1: u128, c2: int)
    requires
        c0 <= c1 <= c2,
    ensures
        earned_amount(balance, c1 as int, c0) + earned_amount(balance, c2, c1) <= earned_amount(
            balance,
            c2,
            c0,
        ),
        earned_amount(balance, c2, c0) <= earned_amount(balance, c1 as int, c0) + earned_amount(
            balance,
            c2,
            c1,
        ) + 1,
{
    let p = PRECISION as int;
    let x = balance * (c1 - c0);
    let y = balance * (c2 - c1);
    assert(x + y == balance * (c2 - c0)) by {
        lemma_mul_is_distributive_add(balance as int, c1 - c0, c2 - c1);
    }
    lemma_mul_nonnegative(balance as int, c1 - c0);
    lemma_mul_nonnegative(balance as int, c2 - c1);
    lemma_fundamental_div_mod(x, p);
    lemma_fundamental_div_mod(y, p);
    lemma_fundamental_div_mod(x + y, p);
    vstd::arithmetic::div_mod::lemma_mod_bound(x, p);
    vstd::arithmetic::div_mod::lemma_mod_bound(y, p);
    vstd::arithmetic::div_mod::lemma_mod_bound(x + y, p);
    assert(p * (x / p) + p * (y / p) == p * (x / p + y / p)) by {
        lemma_mul_is_distributive_add(p, x / p, y / p);
    }
    assert((x + y) / p - 1 <= x / p + y / p <= (x + y) / p) by (nonlinear_arith)
        requires
            x == p * (x / p) + x % p,
            y == p * (y / p) + y % p,
            x + y == p * ((x + y) / p) + (x + y) % p,
            0 <= x % p < p,
            0 <= y % p < p,
            0 <= (x + y) % p < p,
            p > 0,
    ;
}

/// Checkpointing more often never gains: accruing a position at `t1` and
/// again at `t2` — through the real accumulator path, whose intermediate
/// value the first step fixes — earns at most what a single accrual at `t2`
/// earns. Together with `lemma_earned_split` this bounds the cost of the
/// extra call at one rounding unit.
pub proof fn lemma_extra_checkpoint_never_gains(
    pool: PoolState,
    user: UserState,
    supply: u64,
    t1: u64,
    t2: u64,
)
    requires
        supply > 0,
        t1 <= t2,
        user.wf_for(pool),
        crate::rewards::accrued_cum(pool, supply, t1) <= u128::MAX,
    ensures
        ({
            let bal = user.lp_token_balance;
            let cp = user.previous_cumulated_reward_per_token;
            let c1 = crate::rewards::accrued_cum(pool, supply, t1);
            let pool1 = PoolState {
                cumulative_reward_per_token: c1 as u128,
                last_distribution_time: crate::rewards::stepped_dist_time(
                    pool,
                    supply,
                    t1,
                ) as u64,
                ..pool
            };
            earned_amount(bal, c1, cp) + earned_amount(
                bal,
                crate::rewards::accrued_cum(pool1, supply, t2),
                c1 as u128,
            ) <= earned_amount(bal, crate::rewards::accrued_cum(pool, supply, t2), cp)
        }),
{
    let p = PRECISION as int;
    let s = supply as int;
    let bal = user.lp_token_balance as int;
    let cp = user.previous_cumulated_reward_per_token;
    let r1 = pending_global_reward(pool, t1);
    let c1 = crate::rewards::accrued_cum(pool, supply, t1);
    let pool1 = PoolState {
        cumulative_reward_per_token: c1 as u128,
        last_distribution_time: crate::rewards::stepped_dist_time(pool, supply, t1) as u64,
        ..pool
    };
    let r2 = pending_global_reward(pool1, t2);
    let rd = pending_global_reward(pool, t2);
    // The two legs of the interval stream exactly what the whole does.
    assert(r1 + r2 == rd) by {
        assert(crate::rewards::elapsed_time(pool, t1) + crate::rewards::elapsed_time(pool1, t2)
            == crate::rewards::elapsed_time(pool, t2));
        lemma_mul_is_distributive_add(
            pool.tokens_per_interval as int,
            crate::rewards::elapsed_time(pool, t1),
            crate::rewards::elapsed_time(pool1, t2),
        );
    }
    assert(r1 >= 0 && r2 >= 0) by {
        lemma_mul_nonnegative(
            pool.tokens_per_interval as int,
            crate::rewards::elapsed_time(pool, t1),
        );
        lemma_mul_nonnegative(
            pool1.tokens_per_interval as int,
            crate::rewards::elapsed_time(pool1, t2),
        );
    }
    let d1 = (r1 * p) / s;
    let d2 = (r2 * p) / s;
    let dd = (rd * p) / s;
    lemma_mul_nonnegative(r1, p);
    lemma_mul_nonnegative(r2, p);
    lemma_div_pos_is_pos(r1 * p, s);
    lemma_div_pos_is_pos(r2 * p, s);
    assert(d1 + d2 <= dd) by {
        lemma_mul_is_commutative(r1, p);
        lemma_mul_is_commutative(r2, p);
        lemma_mul_is_commutative(rd, p);
        lemma_mul_is_distributive_add(p, r1, r2);
        lemma_floor_superadditive(r1 * p, r2 * p, s);
    }
    let c2a = crate::rewards::accrued_cum(pool1, supply, t2);
    let c2b = crate::rewards::accrued_cum(pool, supply, t2);
    assert(c2a == c1 + d2);
    assert(c2b == pool.cumulative_reward_per_token + dd);
    assert(c2a <= c2b);
    // Summing the two legs' earnings never beats earning over the whole
    // growth, and growing further never earns less.
    assert(bal * (c1 - cp) + bal * (c2a - c1) == bal * (c2a - cp)) by {
        lemma_mul_is_distributive_add(bal, c1 - cp, c2a - c1);
    }
    lemma_mul_nonnegative(bal, c1 - cp);
    lemma_mul_nonnegative(bal, c2a - c1);
    lemma_floor_superadditive(bal * (c1 - cp), bal * (c2a - c1), p);
    assert(bal * (c2a - cp) <= bal * (c2b - cp)) by {
        lemma_mul_inequality(c2a - cp, c2b - cp, bal);
        lemma_mul_is_commutative(c2a - cp, bal);
        lemma_mul_is_commutative(c2b - cp, bal);
    }
    lemma_div_is_ordered(bal * (c2a - cp), bal * (c2b - cp), p);
}

/// Proportional share bound: over one distributor step, a position whose
/// checkpoint is current cannot earn more than its proportional slice of
/// the globally accrued reward — `earned * supply <= balance * accrued` —
/// so positions whose balances sum to the supply can never be owed more
/// than the period streams out.
pub proof fn lemma_proportional_share(pool: PoolState, user: UserState, supply: u64, now: u64)
    requires
        supply > 0,
        user.previous_cumulated_reward_per_token == pool.cumulative_reward_per_token,
    ensures
        (stepped_pending(pool, user, supply, now) - user.pending_rewards) * supply
            <= user.lp_token_balance * pending_global_reward(pool, now),
{
    let p = PRECISION as int;
    let s = supply as int;
    let bal = user.lp_token_balance as int;
    let reward = pending_global_reward(pool, now);
    let delta = (reward * p) / s;
    assert(reward >= 0) by {
        lemma_mul_nonnegative(pool.tokens_per_interval as int, crate::rewards::elapsed_time(pool, now));
    }
    lemma_mul_nonnegative(reward, p);
    lemma_div_pos_is_pos(reward * p, s);
    let earned = (bal * delta) / p;
    assert(stepped_pending(pool, user, supply, now) - user.pending_rewards == earned);
    // earned * p <= bal * delta
    lemma_fundamental_div_mod(bal * delta, p);
    vstd::arithmetic::div_mod::lemma_mod_bound(bal * delta, p);
    // delta * s <= reward * p
    lemma_fundamental_div_mod(reward * p, s);
    vstd::arithmetic::div_mod::lemma_mod_bound(reward * p, s);
    assert(earned * s * p <= bal * reward * p) by (nonlinear_arith)
        requires
            bal * delta == p * earned + (bal * delta) % p,
            0 <= (bal * delta) % p,
            reward * p == s * delta + (reward * p) % s,
            0 <= (reward * p) % s,
            0 <= bal,
            0 <= delta,
            p > 0,
            s > 0,
    ;
    assert(earned * s <= bal * reward) by (nonlinear_arith)
        requires
            earned * s * p <= bal * reward * p,
            p > 0,
    ;
    lemma_mul_nonnegative(bal, delta);
    lemma_div_pos_is_pos(bal * delta, p);
}

/// A reward period can never stream out more than was deposited for it: the
/// floored per-second rate times the period length stays within the budget,
/// so with `lemma_reward_conservation` the positions together are never owed
/// more than `total_rewards_deposited`.
pub proof fn lemma_period_budget(amount: u64)
    ensures
        ((amount as int) / (crate::rewards::REWARD_DURATION as int)) * (
        crate::rewards::REWARD_DURATION as int) <= amount,
{
    let d = crate::rewards::REWARD_DURATION as int;
    lemma_fundamental_div_mod(amount as int, d);
    vstd::arithmetic::div_mod::lemma_mod_bound(amount as int, d);
    lemma_mul_is_commutative(amount as int / d, d);
}

/// The cumulative reward-per-share accumulator never decreases: whatever the
/// time and supply, one distributor step leaves it at least where it was.
pub proof fn lemma_accumulator_monotonic(pool: PoolState, supply: u64, now: u64)
    ensures
        crate::rewards::stepped_cum(pool, supply, now) >= pool.cumulative_reward_per_token,
{
    if supply > 0 {
        let reward = pending_global_reward(pool, now);
        assert(reward >= 0) by {
            lemma_mul_nonnegative(
                pool.tokens_per_interval as int,
                crate::rewards::elapsed_time(pool, now),
            );
        }
        lemma_mul_nonnegative(reward, PRECISION as int);
        lemma_div_pos_is_pos(reward * (PRECISION as int), supply as int);
    }
}

/// Total of a set of share balances.
pub open spec fn sum_balances(balances: Seq<u64>) -> int
    decreases balances.len(),
{
    if balances.len() == 0 {
        0
    } else {
        sum_balances(balances.drop_last()) + balances.last()
    }
}

/// Total reward one distributor step pays a set of positions, each with a
/// current checkpoint, when the accumulator grows by `growth`: each position
/// earns `balance * growth / PRECISION`.
pub open spec fn sum_earned(balances: Seq<u64>, growth: int) -> int
    decreases balances.len(),
{
    if balances.len() == 0 {
        0
    } else {
        sum_earned(balances.drop_last(), growth) + (balances.last() * growth) / (PRECISION as int)
    }
}

/// Flooring each summand separately never exceeds flooring the sum.
proof fn lemma_floor_superadditive(x: int, y: int, p: int)
    requires
        0 <= x,
        0 <= y,
        0 < p,
    ensures
        x / p + y / p <= (x + y) / p,
{
    lemma_fundamental_div_mod(x, p);
    lemma_fundamental_div_mod(y, p);
    lemma_fundamental_div_mod(x + y, p);
    vstd::arithmetic::div_mod::lemma_mod_bound(x, p);
    vstd::arithmetic::div_mod::lemma_mod_bound(y, p);
    vstd::arithmetic::div_mod::lemma_mod_bound(x + y, p);
    assert(x / p + y / p <= (x + y) / p) by (nonlinear_arith)
        requires
            x == p * (x / p) + x % p,
            y == p * (y / p) + y % p,
            x + y == p * ((x + y) / p) + (x + y) % p,
            0 <= x % p < p,
            0 <= y % p < p,
            0 <= (x + y) % p < p,
            p > 0,
    ;
}

/// Summed floored shares never exceed the floored share of the summed
/// balance.
proof fn lemma_sum_earned_le(balances: Seq<u64>, growth: int)
    requires
        growth >= 0,
    ensures
        sum_balances(balances) >= 0,
        sum_earned(balances, growth) <= (sum_balances(balances) * growth) / (PRECISION as int),
    decreases balances.len(),
{
    let p = PRECISION as int;
    if balances.len() == 0 {
        assert(sum_earned(balances, growth) == 0);
        assert((0int * growth) / p == 0) by {
            vstd::arithmetic::mul::lemma_mul_basics(growth);
            vstd::arithmetic::div_mod::lemma_div_of0(p);
        }
    } else {
        let rest = balances.drop_last();
        let last = balances.last() as int;
        lemma_sum_earned_le(rest, growth);
        lemma_mul_nonnegative(sum_balances(rest), growth);
        lemma_mul_nonnegative(last, growth);
        lemma_floor_superadditive(sum_balances(rest) * growth, last * growth, p);
        assert(sum_balances(rest) * growth + last * growth == sum_balances(balances) * growth) by {
            lemma_mul_is_commutative(sum_balances(rest), growth);
            lemma_mul_is_commutative(last, growth);
            lemma_mul_is_commutative(sum_balances(balances), growth);
            lemma_mul_is_distributive_add(growth, sum_balances(rest), last);
        }
    }
}

/// Reward conservation: one distributor step over any set of positions
/// whose balances sum to at most the share supply pays out, in total, at
/// most the reward the period streams over the elapsed interval — the pool
/// never promises more than was deposited for the period.
pub proof fn lemma_reward_conservation(balances: Seq<u64>, pool: PoolState, supply: u64, now: u64)
    requires
        supply > 0,
        sum_balances(balances) <= supply,
    ensures
        sum_earned(
            balances,
            crate::rewards::accrued_cum(pool, supply, now) - pool.cumulative_reward_per_token,
        ) <= pending_global_reward(pool, now),
{
    let p = PRECISION as int;
    let s = supply as int;
    let reward = pending_global_reward(pool, now);
    assert(reward >= 0) by {
        lemma_mul_nonnegative(
            pool.tokens_per_interval as int,
            crate::rewards::elapsed_time(pool, now),
        );
    }
    lemma_mul_nonnegative(reward, p);
    let growth = (reward * p) / s;
    assert(crate::rewards::accrued_cum(pool, supply, now) - pool.cumulative_reward_per_token
        == growth);
    lemma_div_pos_is_pos(reward * p, s);
    lemma_sum_earned_le(balances, growth);
    let total = sum_balances(balances);
    // total * growth <= s * growth <= reward * p
    lemma_mul_inequality(total, s, growth);
    lemma_fundamental_div_mod(reward * p, s);
    vstd::arithmetic::div_mod::lemma_mod_bound(reward * p, s);
    lemma_mul_is_commutative(s, growth);
    assert(s * growth <= reward * p);
    lemma_mul_is_commutative(total, growth);
    lemma_mul_is_commutative(growth, total);
    lemma_div_is_ordered(total * growth, reward * p, p);
    lemma_mul_is_commutative(reward, p);
    lemma_div_multiples_vanish(reward, p);
}

} // verus!
