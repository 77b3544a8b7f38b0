//! Global state of the liquidity pool and the per-provider position record.

use vstd::prelude::*;

use crate::pool_errors::ErrorCode;

verus! {

/// Maximum number of entries in an authority set.
pub const MAX_AUTHORITIES: usize = 10;

/// Reward-accumulator fixed-point scale: rewards per share carry 12 extra
/// decimal places so that small rates over large supplies do not truncate to
/// zero.
pub const PRECISION: u128 = 1_000_000_000_000;

/// Global record of the liquidity pool: reserves, fee buckets, and the
/// streaming-reward accumulators. Share supply itself lives in the host's
/// mint counter and is passed into each operation.
pub struct PoolState {
    /// Admin identity; may withdraw funds, manage authorities and rewards.
    pub admin: u64,
    /// Identities permitted to perform privileged operations besides the
    /// admin (for example the margin ledger). At most `MAX_AUTHORITIES`.
    pub authorities: Vec<u64>,
    /// SOL reserve currently deposited (9 decimals).
    pub sol_deposited: u64,
    /// USDC reserve currently deposited (6 decimals; USD values derived from
    /// it carry 8 decimals).
    pub usdc_deposited: u64,
    /// Last oracle SOL/USD price seen (8 decimals).
    pub sol_usd_price: i128,
    /// Reward-asset units streamed per second (6 decimals).
    pub tokens_per_interval: u64,
    /// Timestamp when the current reward period started.
    pub reward_start_time: u64,
    /// Timestamp when rewards stop accruing.
    pub reward_end_time: u64,
    /// Reward-asset units deposited for the current period.
    pub total_rewards_deposited: u64,
    /// Reward-asset units already claimed from the current period.
    pub total_rewards_claimed: u64,
    /// Cumulative reward per share, scaled by `PRECISION`; never decreases.
    pub cumulative_reward_per_token: u128,
    /// Timestamp up to which the accumulator has been brought current.
    pub last_distribution_time: u64,
    /// SOL fees collected from deposits and withdrawals (9 decimals).
    pub accumulated_sol_fees: u64,
    /// USDC fees collected from deposits and withdrawals (6 decimals).
    pub accumulated_usdc_fees: u64,
}

/// Per-provider position: share balance and the reward checkpoint that the
/// distributor updates atomically with every balance change.
pub struct UserState {
    /// Owner identity of this position.
    pub owner: u64,
    /// The provider's share balance, tracked alongside the host's mint.
    pub lp_token_balance: u64,
    /// Last time this position claimed or first accrued.
    pub last_claim_timestamp: u64,
    /// Accrued reward not yet paid out.
    pub pending_rewards: u64,
    /// Accumulator value at this position's last accrual.
    pub previous_cumulated_reward_per_token: u128,
}

impl PoolState {
    /// Structural invariant of the pool record.
    pub open spec fn wf(self) -> bool {
        &&& self.authorities@.len() <= MAX_AUTHORITIES
        &&& self.total_rewards_claimed <= self.total_rewards_deposited
    }

    /// Whether `key` is in the authority set.
    pub open spec fn spec_is_authority(self, key: u64) -> bool {
        self.authorities@.contains(key)
    }

    /// Whether `key` may perform privileged operations (admin or authority).
    pub open spec fn spec_is_privileged(self, key: u64) -> bool {
        key == self.admin || self.spec_is_authority(key)
    }

    /// Check if an identity is an authorized authority.
    pub fn is_authority(&self, key: &u64) -> (r: bool)
        ensures
            r == self.spec_is_authority(*key),
    {
        let n = self.authorities.len();
        let mut i: usize = 0;
        while i < n
            invariant
                i <= n,
                n == self.authorities@.len(),
                forall|j: int| 0 <= j < i ==> self.authorities@[j] != *key,
            decreases n - i,
        {
            if self.authorities[i] == *key {
                return true;
            }
            i = i + 1;
        }
        false
    }

    /// Check if an identity is the admin.
    pub fn is_admin(&self, key: &u64) -> (r: bool)
        ensures
            r == (*key == self.admin),
    {
        self.admin == *key
    }
}

impl UserState {
    /// A position is consistent with its pool when its checkpoint does not
    /// run ahead of the global accumulator.
    pub open spec fn wf_for(self, pool: PoolState) -> bool {
        self.previous_cumulated_reward_per_token <= pool.cumulative_reward_per_token
    }
}

/// Creates the pool record with the given admin, an empty authority set, and
/// every counter at zero.
pub fn initialize(admin: u64) -> (pool: PoolState)
    ensures
        pool.wf(),
        pool.admin == admin,
        pool.authorities@ =~= Seq::<u64>::empty(),
        pool.sol_deposited == 0,
        pool.usdc_deposited == 0,
        pool.sol_usd_price == 0,
        pool.tokens_per_interval == 0,
        pool.reward_start_time == 0,
        pool.reward_end_time == 0,
        pool.total_rewards_deposited == 0,
        pool.total_rewards_claimed == 0,
        pool.cumulative_reward_per_token == 0,
        pool.last_distribution_time == 0,
        pool.accumulated_sol_fees == 0,
        pool.accumulated_usdc_fees == 0,
{
    PoolState {
        admin,
        authorities: Vec::new(),
        sol_deposited: 0,
        usdc_deposited: 0,
        sol_usd_price: 0,
        tokens_per_interval: 0,
        reward_start_time: 0,
        reward_end_time: 0,
        total_rewards_deposited: 0,
        total_rewards_claimed: 0,
        cumulative_reward_per_token: 0,
        last_distribution_time: 0,
        accumulated_sol_fees: 0,
        accumulated_usdc_fees: 0,
    }
}

/// Creates an empty position owned by nobody; the first deposit claims it.
pub fn new_user_state() -> (user: UserState)
    ensures
        user.owner == 0,
        user.lp_token_balance == 0,
        user.last_claim_timestamp == 0,
        user.pending_rewards == 0,
        user.previous_cumulated_reward_per_token == 0,
{
    UserState {
        owner: 0,
        lp_token_balance: 0,
        last_claim_timestamp: 0,
        pending_rewards: 0,
        previous_cumulated_reward_per_token: 0,
    }
}

/// Admin-only: registers one more privileged identity.
///
/// Fails with `Unauthorized` for any other caller, `AuthorityAlreadyExists`
/// for a present member, and `MaxAuthoritiesReached` at capacity; on success
/// the new identity is appended and nothing else changes.
pub fn add_authority(pool: &mut PoolState, caller: u64, new_authority: u64) -> (r: Result<
    (),
    ErrorCode,
>)
    requires
        old(pool).wf(),
    ensures
        final(pool).wf(),
        r is Ok <==> caller == old(pool).admin && !old(pool).spec_is_authority(new_authority)
            && old(pool).authorities@.len() < MAX_AUTHORITIES,
        r is Ok ==> final(pool).authorities@ =~= old(pool).authorities@.push(new_authority),
        r is Err ==> *final(pool) == *old(pool),
        r matches Err(e) ==> (if caller != old(pool).admin {
            e == ErrorCode::Unauthorized
        } else if old(pool).spec_is_authority(new_authority) {
            e == ErrorCode::AuthorityAlreadyExists
        } else {
            e == ErrorCode::MaxAuthoritiesReached
        }),
        final(pool).admin == old(pool).admin,
        final(pool).sol_deposited == old(pool).sol_deposited,
        final(pool).usdc_deposited == old(pool).usdc_deposited,
        final(pool).accumulated_sol_fees == old(pool).accumulated_sol_fees,
        final(pool).accumulated_usdc_fees == old(pool).accumulated_usdc_fees,
{
    if caller != pool.admin {
        return Err(ErrorCode::Unauthorized);
    }
    if pool.is_authority(&new_authority) {
        return Err(ErrorCode::AuthorityAlreadyExists);
    }
    if pool.authorities.len() >= MAX_AUTHORITIES {
        return Err(ErrorCode::MaxAuthoritiesReached);
    }
    pool.authorities.push(new_authority);
    Ok(())
}

/// Admin-only: removes a privileged identity, but never the last one.
///
/// Fails with `Unauthorized` for non-admin callers,
/// `CannotRemoveLastAuthority` when at most one member remains, and
/// `AuthorityNotFound` when the identity is absent; on success exactly the
/// matching entries are gone and the rest keep their order.
pub fn remove_authority(pool: &mut PoolState, caller: u64, authority_to_remove: u64) -> (r: Result<
    (),
    ErrorCode,
>)
    requires
        old(pool).wf(),
    ensures
        final(pool).wf(),
        r is Ok <==> caller == old(pool).admin && old(pool).authorities@.len() > 1 && old(
            pool,
        ).spec_is_authority(authority_to_remove),
        r is Ok ==> final(pool).authorities@ =~= old(pool).authorities@.filter(
            |a: u64| a != authority_to_remove,
        ),
        r is Err ==> *final(pool) == *old(pool),
        r matches Err(e) ==> (if caller != old(pool).admin {
            e == ErrorCode::Unauthorized
        } else if old(pool).authorities@.len() <= 1 {
            e == ErrorCode::CannotRemoveLastAuthority
        } else {
            e == ErrorCode::AuthorityNotFound
        }),
        final(pool).admin == old(pool).admin,
        final(pool).sol_deposited == old(pool).sol_deposited,
        final(pool).usdc_deposited == old(pool).usdc_deposited,
{
    if caller != pool.admin {
        return Err(ErrorCode::Unauthorized);
    }
    if pool.authorities.len() <= 1 {
        return Err(ErrorCode::CannotRemoveLastAuthority);
    }
    if !pool.is_authority(&authority_to_remove) {
        return Err(ErrorCode::AuthorityNotFound);
    }
    let ghost before = pool.authorities@;
    let n = pool.authorities.len();
    let mut kept: Vec<u64> = Vec::new();
    let mut i: usize = 0;
    while i < n
        invariant
            i <= n,
            n == before.len(),
            pool.authorities@ == before,
            kept@ =~= before.take(i as int).filter(|a: u64| a != authority_to_remove),
        decreases n - i,
    {
        proof {
            assert(before.take(i + 1) =~= before.take(i as int).push(before[i as int]));
            reveal_with_fuel(Seq::filter, 2);
        }
        let a = pool.authorities[i];
        if a != authority_to_remove {
            kept.push(a);
        }
        proof {
            assert(before.take(i as int).push(before[i as int]).drop_last() =~= before.take(
                i as int,
            ));
        }
        i = i + 1;
    }
    proof {
        assert(before.take(n as int) =~= before);
        lemma_filter_len_le(before, |a: u64| a != authority_to_remove);
    }
    pool.authorities = kept;
    Ok(())
}

/// Filtering a sequence never makes it longer.
pub proof fn lemma_filter_len_le<A>(s: Seq<A>, pred: spec_fn(A) -> bool)
    ensures
        s.filter(pred).len() <= s.len(),
    decreases s.len(),
{
    reveal_with_fuel(Seq::filter, 2);
    if s.len() > 0 {
        lemma_filter_len_le(s.drop_last(), pred);
        assert(s =~= s.drop_last().push(s.last()));
    }
}

/// Admin-only teardown of an emptied pool; the host reclaims the record's
/// storage afterwards.
///
/// Callers must have drained both reserves and both fee buckets first; the
/// only runtime check left is that the caller is the admin.
pub fn close_pool(pool: &PoolState, caller: u64) -> (r: Result<(), ErrorCode>)
    requires
        pool.sol_deposited == 0,
        pool.usdc_deposited == 0,
        pool.accumulated_sol_fees == 0,
        pool.accumulated_usdc_fees == 0,
    ensures
        r is Ok <==> caller == pool.admin,
        r matches Err(e) ==> e == ErrorCode::Unauthorized,
{
    if caller != pool.admin {
        return Err(ErrorCode::Unauthorized);
    }
    Ok(())
}

/// Owner- or admin-gated close of a position record; the host refunds the
/// record's storage cost to the caller.
pub fn close_user_state(user: &UserState, pool: &PoolState, caller: u64) -> (r: Result<
    (),
    ErrorCode,
>)
    ensures
        r is Ok <==> caller == user.owner || caller == pool.admin,
        r matches Err(e) ==> e == ErrorCode::Unauthorized,
{
    if caller != user.owner && caller != pool.admin {
        return Err(ErrorCode::Unauthorized);
    }
    Ok(())
}

/// Admin-only override that discards a position record regardless of its
/// balances; the host sweeps the record's storage cost back to the admin.
pub fn force_close_user_state(pool: &PoolState, caller: u64) -> (r: Result<(), ErrorCode>)
    ensures
        r is Ok <==> caller == pool.admin,
        r matches Err(e) ==> e == ErrorCode::Unauthorized,
{
    if caller != pool.admin {
        return Err(ErrorCode::Unauthorized);
    }
    Ok(())
}

} // verus!
