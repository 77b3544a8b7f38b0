//! Streaming reward distribution.
//!
//! A reward budget streams out linearly over a fixed period. The pool keeps a
//! cumulative reward-per-share accumulator (scaled by `PRECISION`); each
//! position remembers the accumulator value at its last accrual, so a
//! position's earnings over an interval depend only on its balance and on how
//! much the accumulator grew — never on how often anyone else touched the
//! pool.

use vstd::prelude::*;

use crate::pool_errors::ErrorCode;
use crate::pool_state::{PoolState, UserState, PRECISION};

verus! {

/// Length of one reward period in seconds (one week).
pub const REWARD_DURATION: u64 = 604_800;

/// Seconds of accrual the distributor still owes the accumulator at `now`:
/// from the last distribution up to `now`, clipped to the period's end, and
/// zero once the period has been fully distributed.
pub open spec fn elapsed_time(pool: PoolState, now: u64) -> int {
    let eff = if pool.reward_end_time <= now {
        pool.reward_end_time as int
    } else {
        now as int
    };
    if pool.last_distribution_time < pool.reward_end_time && eff > pool.last_distribution_time {
        eff - pool.last_distribution_time
    } else {
        0
    }
}

/// Reward-asset units the whole pool accrues between the last distribution
/// and `now`.
pub open spec fn pending_global_reward(pool: PoolState, now: u64) -> int {
    pool.tokens_per_interval * elapsed_time(pool, now)
}

/// Value of the cumulative reward-per-share accumulator once it is brought
/// current to `now` over `supply` outstanding shares.
pub open spec fn accrued_cum(pool: PoolState, supply: u64, now: u64) -> int {
    pool.cumulative_reward_per_token + (pending_global_reward(pool, now) * PRECISION) / (
    supply as int)
}

/// Reward earned by a balance as the accumulator grows from `checkpoint` to
/// `cum_new`, rounded down by the fixed-point scale.
pub open spec fn earned_amount(balance: u64, cum_new: int, checkpoint: u128) -> int {
    (balance * (cum_new - checkpoint)) / (PRECISION as int)
}

/// All intermediate values of one distributor step fit their machine words;
/// exactly when this holds (or no shares are outstanding), the step succeeds.
pub open spec fn reward_step_ok(pool: PoolState, user: UserState, supply: u64, now: u64) -> bool {
    let cum_new = accrued_cum(pool, supply, now);
    &&& pending_global_reward(pool, now) * PRECISION <= u128::MAX
    &&& cum_new <= u128::MAX
    &&& user.lp_token_balance * (cum_new - user.previous_cumulated_reward_per_token) <= u128::MAX
    &&& user.pending_rewards + earned_amount(
        user.lp_token_balance,
        cum_new,
        user.previous_cumulated_reward_per_token,
    ) <= u64::MAX
}

/// The four cells one distributor step rewrites, computed ahead of any
/// mutation so that a failing operation can abort without touching state.
pub struct RewardStep {
    /// New value of the pool's cumulative reward per share.
    pub cum_new: u128,
    /// New value of the pool's last distribution time.
    pub dist_time_new: u64,
    /// New pending reward of the position.
    pub pending_new: u64,
    /// New accumulator checkpoint of the position.
    pub checkpoint_new: u128,
}

/// The distributor step succeeds: either no shares are outstanding, or every
/// intermediate value fits its machine word.
pub open spec fn reward_step_fits(pool: PoolState, user: UserState, supply: u64, now: u64) -> bool {
    supply == 0 || reward_step_ok(pool, user, supply, now)
}

/// Accumulator value after one distributor step.
pub open spec fn stepped_cum(pool: PoolState, supply: u64, now: u64) -> int {
    if supply == 0 {
        pool.cumulative_reward_per_token as int
    } else {
        accrued_cum(pool, supply, now)
    }
}

/// Distribution clock after one distributor step.
pub open spec fn stepped_dist_time(pool: PoolState, supply: u64, now: u64) -> int {
    if supply == 0 {
        now as int
    } else if elapsed_time(pool, now) > 0 {
        if pool.reward_end_time <= now {
            pool.reward_end_time as int
        } else {
            now as int
        }
    } else {
        pool.last_distribution_time as int
    }
}

/// A position's pending reward after one distributor step.
pub open spec fn stepped_pending(pool: PoolState, user: UserState, supply: u64, now: u64) -> int {
    if supply == 0 {
        user.pending_rewards as int
    } else {
        user.pending_rewards + earned_amount(
            user.lp_token_balance,
            accrued_cum(pool, supply, now),
            user.previous_cumulated_reward_per_token,
        )
    }
}

/// A position's accumulator checkpoint after one distributor step.
pub open spec fn stepped_checkpoint(pool: PoolState, user: UserState, supply: u64, now: u64) -> int {
    if supply == 0 {
        user.previous_cumulated_reward_per_token as int
    } else {
        accrued_cum(pool, supply, now)
    }
}

/// `step` is what one distributor run at `now` over `supply` shares produces
/// from `pool` and `user`.
pub open spec fn reward_step_matches(
    pool: PoolState,
    user: UserState,
    supply: u64,
    now: u64,
    step: RewardStep,
) -> bool {
    &&& step.cum_new == stepped_cum(pool, supply, now)
    &&& step.dist_time_new == stepped_dist_time(pool, supply, now)
    &&& step.pending_new == stepped_pending(pool, user, supply, now)
    &&& step.checkpoint_new == stepped_checkpoint(pool, user, supply, now)
}

/// Computes one distributor step without mutating anything.
///
/// With no shares outstanding only the distribution clock moves. Otherwise
/// the accumulator gains `rate * elapsed * PRECISION / supply` and the
/// position earns `balance * growth / PRECISION`; any intermediate value
/// that does not fit its machine word is a math error.
pub fn compute_reward_step(pool: &PoolState, user: &UserState, lp_supply: u64, now: u64) -> (r:
    Result<RewardStep, ErrorCode>)
    requires
        pool.wf(),
        user.wf_for(*pool),
    ensures
        r is Ok <==> lp_supply == 0 || reward_step_ok(*pool, *user, lp_supply, now),
        r matches Ok(step) ==> reward_step_matches(*pool, *user, lp_supply, now, step),
        r matches Ok(step) ==> step.cum_new >= pool.cumulative_reward_per_token
            && step.checkpoint_new <= step.cum_new,
        r is Err ==> r == Err::<RewardStep, ErrorCode>(ErrorCode::MathError),
{
    if lp_supply == 0 {
        return Ok(
            RewardStep {
                cum_new: pool.cumulative_reward_per_token,
                dist_time_new: now,
                pending_new: user.pending_rewards,
                checkpoint_new: user.previous_cumulated_reward_per_token,
            },
        );
    }
    let effective_end_time = if pool.reward_end_time <= now {
        pool.reward_end_time
    } else {
        now
    };
    let mut cum_new: u128 = pool.cumulative_reward_per_token;
    let mut dist_time_new: u64 = pool.last_distribution_time;
    if pool.last_distribution_time < pool.reward_end_time && effective_end_time
        > pool.last_distribution_time {
        let time_diff: u64 = effective_end_time - pool.last_distribution_time;
        proof {
            assert(pool.tokens_per_interval * time_diff <= u64::MAX as int * u64::MAX as int)
                by (nonlinear_arith)
                requires
                    pool.tokens_per_interval <= u64::MAX as int,
                    time_diff <= u64::MAX as int,
                    0 <= pool.tokens_per_interval,
                    0 <= time_diff,
            ;
        }
        let pending: u128 = (pool.tokens_per_interval as u128) * (time_diff as u128);
        let scaled = match pending.checked_mul(PRECISION) {
            Some(s) => s,
            None => {
                return Err(ErrorCode::MathError);
            },
        };
        let reward_per_token = scaled / (lp_supply as u128);
        cum_new = match cum_new.checked_add(reward_per_token) {
            Some(c) => c,
            None => {
                return Err(ErrorCode::MathError);
            },
        };
        dist_time_new = effective_end_time;
    }
    proof {
        if elapsed_time(*pool, now) == 0 {
            vstd::arithmetic::div_mod::lemma_div_of0(lp_supply as int);
        }
        assert(cum_new == accrued_cum(*pool, lp_supply, now));
        assert(user.previous_cumulated_reward_per_token <= cum_new) by {
            vstd::arithmetic::div_mod::lemma_div_pos_is_pos(
                pending_global_reward(*pool, now) * (PRECISION as int),
                lp_supply as int,
            );
        }
    }
    let growth: u128 = cum_new - user.previous_cumulated_reward_per_token;
    let user_reward_scaled = match (user.lp_token_balance as u128).checked_mul(growth) {
        Some(p) => p,
        None => {
            return Err(ErrorCode::MathError);
        },
    };
    let user_reward: u128 = user_reward_scaled / PRECISION;
    proof {
        vstd::arithmetic::div_mod::lemma_div_pos_is_pos(
            user_reward_scaled as int,
            PRECISION as int,
        );
    }
    if user_reward > u64::MAX as u128 {
        return Err(ErrorCode::MathError);
    }
    let pending_new = match user.pending_rewards.checked_add(user_reward as u64) {
        Some(p) => p,
        None => {
            return Err(ErrorCode::MathError);
        },
    };
    Ok(
        RewardStep {
            cum_new,
            dist_time_new,
            pending_new,
            checkpoint_new: cum_new,
        },
    )
}

/// Writes a computed distributor step into the two records.
pub fn apply_reward_step(pool: &mut PoolState, user: &mut UserState, step: &RewardStep)
    requires
        old(pool).wf(),
        step.checkpoint_new <= step.cum_new,
    ensures
        final(pool).wf(),
        final(user).wf_for(*final(pool)),
        *final(pool) == (PoolState {
            cumulative_reward_per_token: step.cum_new,
            last_distribution_time: step.dist_time_new,
            ..*old(pool)
        }),
        *final(user) == (UserState {
            pending_rewards: step.pending_new,
            previous_cumulated_reward_per_token: step.checkpoint_new,
            ..*old(user)
        }),
{
    pool.cumulative_reward_per_token = step.cum_new;
    pool.last_distribution_time = step.dist_time_new;
    user.pending_rewards = step.pending_new;
    user.previous_cumulated_reward_per_token = step.checkpoint_new;
}

/// Both records agree with what one distributor step at `now` produces.
pub open spec fn reward_step_applied(
    pool_old: PoolState,
    user_old: UserState,
    pool_new: PoolState,
    user_new: UserState,
    supply: u64,
    now: u64,
) -> bool {
    let cum_new = accrued_cum(pool_old, supply, now);
    &&& pool_new == (PoolState {
        cumulative_reward_per_token: pool_new.cumulative_reward_per_token,
        last_distribution_time: pool_new.last_distribution_time,
        ..pool_old
    })
    &&& pool_new.cumulative_reward_per_token == cum_new
    &&& pool_new.last_distribution_time == (if elapsed_time(pool_old, now) > 0 {
        if pool_old.reward_end_time <= now {
            pool_old.reward_end_time as int
        } else {
            now as int
        }
    } else {
        pool_old.last_distribution_time as int
    })
    &&& user_new == (UserState {
        pending_rewards: user_new.pending_rewards,
        previous_cumulated_reward_per_token: user_new.previous_cumulated_reward_per_token,
        ..user_old
    })
    &&& user_new.pending_rewards == user_old.pending_rewards + earned_amount(
        user_old.lp_token_balance,
        cum_new,
        user_old.previous_cumulated_reward_per_token,
    )
    &&& user_new.previous_cumulated_reward_per_token == cum_new
}

/// Brings the global accumulator current and folds the growth since the
/// position's checkpoint into its pending reward.
///
/// With no shares outstanding only the distribution clock moves. Otherwise
/// the accumulator gains `rate * elapsed * PRECISION / supply`, the position
/// earns `balance * growth / PRECISION`, and its checkpoint catches up; the
/// step either commits in full or fails as a math error with both records
/// untouched.
pub fn update_rewards(pool: &mut PoolState, user: &mut UserState, lp_supply: u64, now: u64) -> (r:
    Result<(), ErrorCode>)
    requires
        old(pool).wf(),
        old(user).wf_for(*old(pool)),
    ensures
        final(pool).wf(),
        final(user).wf_for(*final(pool)),
        lp_supply == 0 ==> r is Ok && *final(user) == *old(user) && *final(pool) == (PoolState {
            last_distribution_time: now,
            ..*old(pool)
        }),
        lp_supply > 0 ==> (r is Ok <==> reward_step_ok(*old(pool), *old(user), lp_supply, now)),
        lp_supply > 0 && r is Ok ==> reward_step_applied(
            *old(pool),
            *old(user),
            *final(pool),
            *final(user),
            lp_supply,
            now,
        ),
        r is Err ==> r == Err::<(), ErrorCode>(ErrorCode::MathError) && *final(pool) == *old(pool)
            && *final(user) == *old(user),
{
    let step = compute_reward_step(pool, user, lp_supply, now)?;
    apply_reward_step(pool, user, &step);
    Ok(())
}

/// Admin-only: funds and starts a one-week reward period.
///
/// The budget streams at `usdc_amount / REWARD_DURATION` units per second
/// (the indivisible remainder is an accepted rounding loss). A new period may
/// begin only once the previous one has finished streaming; restarting
/// resets the deposited and claimed counters for the new period.
pub fn start_rewards(pool: &mut PoolState, caller: u64, usdc_amount: u64, now: u64) -> (r: Result<
    (),
    ErrorCode,
>)
    requires
        old(pool).wf(),
    ensures
        final(pool).wf(),
        r is Ok <==> caller == old(pool).admin && usdc_amount > 0 && now >= old(
            pool,
        ).reward_end_time && now + REWARD_DURATION <= u64::MAX,
        r matches Err(e) ==> (if caller != old(pool).admin {
            e == ErrorCode::Unauthorized
        } else if usdc_amount == 0 {
            e == ErrorCode::InvalidTokenAmount
        } else if now < old(pool).reward_end_time {
            e == ErrorCode::PreviousPeriodNotEnded
        } else {
            e == ErrorCode::MathError
        }),
        r is Err ==> *final(pool) == *old(pool),
        r is Ok ==> *final(pool) == (PoolState {
            tokens_per_interval: (usdc_amount / REWARD_DURATION) as u64,
            reward_start_time: now,
            reward_end_time: (now + REWARD_DURATION) as u64,
            total_rewards_deposited: usdc_amount,
            total_rewards_claimed: 0,
            last_distribution_time: now,
            ..*old(pool)
        }),
{
    if caller != pool.admin {
        return Err(ErrorCode::Unauthorized);
    }
    if usdc_amount == 0 {
        return Err(ErrorCode::InvalidTokenAmount);
    }
    if now < pool.reward_end_time {
        return Err(ErrorCode::PreviousPeriodNotEnded);
    }
    let end = match now.checked_add(REWARD_DURATION) {
        Some(e) => e,
        None => {
            return Err(ErrorCode::MathError);
        },
    };
    pool.tokens_per_interval = usdc_amount / REWARD_DURATION;
    pool.reward_start_time = now;
    pool.reward_end_time = end;
    pool.total_rewards_deposited = usdc_amount;
    pool.total_rewards_claimed = 0;
    pool.last_distribution_time = now;
    Ok(())
}

/// Record of one reward claim, handed back for external indexing.
#[derive(Clone, Copy, Debug, PartialEq, Eq, Structural)]
pub struct RewardsClaimed {
    /// Owner of the claiming position.
    pub user: u64,
    /// Reward-asset units paid out by this claim.
    pub amount: u64,
    /// Time of the claim.
    pub timestamp: u64,
    /// Pool-wide total claimed after this claim.
    pub total_claimed: u64,
}

/// Reward-asset units of the current period not yet claimed.
pub open spec fn available_rewards(pool: PoolState) -> int {
    pool.total_rewards_deposited - pool.total_rewards_claimed
}

/// Pays out a position's accrued reward, clamped to what the period still
/// owes.
///
/// Requires the period to have started and the position to hold shares; the
/// reward vault must cover everything still owed, as a defense against an
/// under-collateralized reward pool. Runs the distributor first, then claims
/// `min(pending, available)` — possibly zero, which is a successful no-op —
/// and moves that amount from the position's pending total to the pool's
/// claimed total. The caller transfers `amount` from the reward vault to the
/// owner.
pub fn claim_rewards(
    pool: &mut PoolState,
    user: &mut UserState,
    vault_balance: u64,
    lp_supply: u64,
    now: u64,
) -> (r: Result<RewardsClaimed, ErrorCode>)
    requires
        old(pool).wf(),
        old(user).wf_for(*old(pool)),
    ensures
        final(pool).wf(),
        final(user).wf_for(*final(pool)),
        r is Ok <==> now >= old(pool).reward_start_time && old(user).lp_token_balance > 0
            && vault_balance >= available_rewards(*old(pool)) && (lp_supply == 0
            || reward_step_ok(*old(pool), *old(user), lp_supply, now)),
        r is Err ==> *final(pool) == *old(pool) && *final(user) == *old(user),
        r matches Err(e) ==> (if now < old(pool).reward_start_time {
            e == ErrorCode::RewardsNotStarted
        } else if old(user).lp_token_balance == 0 {
            e == ErrorCode::NoLPTokens
        } else if vault_balance < available_rewards(*old(pool)) {
            e == ErrorCode::InsufficientRewardBalance
        } else {
            e == ErrorCode::MathError
        }),
        r matches Ok(c) ==> {
            let pending_new = if lp_supply == 0 {
                old(user).pending_rewards as int
            } else {
                old(user).pending_rewards + earned_amount(
                    old(user).lp_token_balance,
                    accrued_cum(*old(pool), lp_supply, now),
                    old(user).previous_cumulated_reward_per_token,
                )
            };
            let claimed = if pending_new <= available_rewards(*old(pool)) {
                pending_new
            } else {
                available_rewards(*old(pool))
            };
            &&& c.amount == claimed
            &&& c.user == old(user).owner
            &&& c.timestamp == now
            &&& c.total_claimed == final(pool).total_rewards_claimed
            &&& final(pool).total_rewards_claimed == old(pool).total_rewards_claimed + claimed
            &&& final(pool).total_rewards_deposited == old(pool).total_rewards_deposited
            &&& final(user).pending_rewards == pending_new - claimed
            &&& final(user).lp_token_balance == old(user).lp_token_balance
            &&& final(user).owner == old(user).owner
            &&& final(pool).accumulated_sol_fees == old(pool).accumulated_sol_fees
            &&& final(pool).accumulated_usdc_fees == old(pool).accumulated_usdc_fees
            &&& final(pool).sol_deposited == old(pool).sol_deposited
            &&& final(pool).usdc_deposited == old(pool).usdc_deposited
        },
{
    if now < pool.reward_start_time {
        return Err(ErrorCode::RewardsNotStarted);
    }
    if user.lp_token_balance == 0 {
        return Err(ErrorCode::NoLPTokens);
    }
    let available: u64 = pool.total_rewards_deposited - pool.total_rewards_claimed;
    if vault_balance < available {
        return Err(ErrorCode::InsufficientRewardBalance);
    }
    update_rewards(pool, user, lp_supply, now)?;
    let pending = user.pending_rewards;
    let to_claim = if pending <= available {
        pending
    } else {
        available
    };
    pool.total_rewards_claimed = pool.total_rewards_claimed + to_claim;
    user.pending_rewards = pending - to_claim;
    Ok(
        RewardsClaimed {
            user: user.owner,
            amount: to_claim,
            timestamp: now,
            total_claimed: pool.total_rewards_claimed,
        },
    )
}

} // verus!
