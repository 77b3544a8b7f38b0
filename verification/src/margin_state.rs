//! The margin vault (custodial collateral pool) and per-trader margin
//! accounts.

use vstd::prelude::*;

use crate::margin_errors::ErrorCode;
use crate::pool_state::MAX_AUTHORITIES;

verus! {

/// Per-trader collateral record with at most one outstanding withdrawal
/// request.
pub struct MarginAccount {
    /// The owner of this margin account; zero until the first deposit.
    pub owner: u64,
    /// SOL margin deposited (9 decimals).
    pub sol_balance: u64,
    /// USDC margin deposited (6 decimals).
    pub usdc_balance: u64,
    /// Pending withdrawal amount in SOL.
    pub pending_sol_withdrawal: u64,
    /// Pending withdrawal amount in USDC.
    pub pending_usdc_withdrawal: u64,
    /// Timestamp of the last withdrawal request.
    pub last_withdrawal_request: i64,
}

/// Custodial collateral pool of the margin subsystem: fee buckets, the
/// authority set, the withdrawal timelock, and the oracle configuration.
pub struct MarginVault {
    /// Identities permitted to perform admin operations.
    pub authorities: Vec<u64>,
    /// Minimum seconds between a withdrawal request and its execution.
    pub withdrawal_timelock: i64,
    /// Accumulated SOL fees (9 decimals).
    pub sol_fees_accumulated: u64,
    /// Accumulated USDC fees (6 decimals).
    pub usdc_fees_accumulated: u64,
    /// Identity of the oracle program consulted for settlement prices.
    pub chainlink_program: u64,
    /// Identity of the SOL/USD oracle feed.
    pub chainlink_feed: u64,
}

impl MarginAccount {
    /// A withdrawal request is outstanding.
    pub open spec fn has_pending(self) -> bool {
        self.pending_sol_withdrawal > 0 || self.pending_usdc_withdrawal > 0
    }

    /// Structural invariant: the request clock never runs negative.
    pub open spec fn wf(self) -> bool {
        self.last_withdrawal_request >= 0
    }
}

impl MarginVault {
    /// Structural invariant: a bounded authority set and a non-negative
    /// timelock.
    pub open spec fn wf(self) -> bool {
        &&& self.authorities@.len() <= MAX_AUTHORITIES
        &&& self.withdrawal_timelock >= 0
    }

    /// Whether `key` is in the authority set.
    pub open spec fn spec_is_authority(self, key: u64) -> bool {
        self.authorities@.contains(key)
    }

    /// Check if an identity is an authorized authority.
    pub fn is_authority(&self, key: &u64) -> (r: bool)
        ensures
            r == self.spec_is_authority(*key),
    {
        let n = self.authorities.len();
        let mut i: usize = 0;
        while i < n
            invariant
                i <= n,
                n == self.authorities@.len(),
                forall|j: int| 0 <= j < i ==> self.authorities@[j] != *key,
            decreases n - i,
        {
            if self.authorities[i] == *key {
                return true;
            }
            i = i + 1;
        }
        false
    }
}

/// Creates the margin vault with the initializing authority as its first
/// member, the given timelock, and the oracle configuration.
pub fn initialize(
    authority: u64,
    withdrawal_timelock: i64,
    chainlink_program: u64,
    chainlink_feed: u64,
) -> (vault: MarginVault)
    requires
        withdrawal_timelock >= 0,
    ensures
        vault.wf(),
        vault.authorities@ =~= seq![authority],
        vault.withdrawal_timelock == withdrawal_timelock,
        vault.sol_fees_accumulated == 0,
        vault.usdc_fees_accumulated == 0,
        vault.chainlink_program == chainlink_program,
        vault.chainlink_feed == chainlink_feed,
{
    let mut authorities: Vec<u64> = Vec::new();
    authorities.push(authority);
    MarginVault {
        authorities,
        withdrawal_timelock,
        sol_fees_accumulated: 0,
        usdc_fees_accumulated: 0,
        chainlink_program,
        chainlink_feed,
    }
}

/// Creates an empty margin account owned by nobody; the first deposit claims
/// it.
pub fn new_margin_account() -> (acct: MarginAccount)
    ensures
        acct.wf(),
        acct.owner == 0,
        acct.sol_balance == 0,
        acct.usdc_balance == 0,
        acct.pending_sol_withdrawal == 0,
        acct.pending_usdc_withdrawal == 0,
        acct.last_withdrawal_request == 0,
{
    MarginAccount {
        owner: 0,
        sol_balance: 0,
        usdc_balance: 0,
        pending_sol_withdrawal: 0,
        pending_usdc_withdrawal: 0,
        last_withdrawal_request: 0,
    }
}

/// Authority-only: points the vault at a different oracle program and feed.
pub fn update_chainlink_addresses(
    vault: &mut MarginVault,
    caller: u64,
    chainlink_program: u64,
    chainlink_feed: u64,
) -> (r: Result<(), ErrorCode>)
    requires
        old(vault).wf(),
    ensures
        final(vault).wf(),
        r is Ok <==> old(vault).spec_is_authority(caller),
        r matches Err(e) ==> e == ErrorCode::InvalidAuthority && *final(vault) == *old(vault),
        r is Ok ==> *final(vault) == (MarginVault {
            chainlink_program,
            chainlink_feed,
            ..*old(vault)
        }),
{
    if !vault.is_authority(&caller) {
        return Err(ErrorCode::InvalidAuthority);
    }
    vault.chainlink_program = chainlink_program;
    vault.chainlink_feed = chainlink_feed;
    Ok(())
}

/// Authority-only: registers one more privileged identity on the margin
/// vault.
///
/// Fails with `Unauthorized` for any caller outside the set,
/// `AuthorityAlreadyExists` for a present member, and
/// `MaxAuthoritiesReached` at capacity.
pub fn add_authority(vault: &mut MarginVault, caller: u64, new_authority: u64) -> (r: Result<
    (),
    ErrorCode,
>)
    requires
        old(vault).wf(),
    ensures
        final(vault).wf(),
        r is Ok <==> old(vault).spec_is_authority(caller) && !old(vault).spec_is_authority(
            new_authority,
        ) && old(vault).authorities@.len() < MAX_AUTHORITIES,
        r is Ok ==> *final(vault) == (MarginVault {
            authorities: final(vault).authorities,
            ..*old(vault)
        }) && final(vault).authorities@ =~= old(vault).authorities@.push(new_authority),
        r is Err ==> *final(vault) == *old(vault),
        r matches Err(e) ==> (if !old(vault).spec_is_authority(caller) {
            e == ErrorCode::Unauthorized
        } else if old(vault).spec_is_authority(new_authority) {
            e == ErrorCode::AuthorityAlreadyExists
        } else {
            e == ErrorCode::MaxAuthoritiesReached
        }),
{
    if !vault.is_authority(&caller) {
        return Err(ErrorCode::Unauthorized);
    }
    if vault.is_authority(&new_authority) {
        return Err(ErrorCode::AuthorityAlreadyExists);
    }
    if vault.authorities.len() >= MAX_AUTHORITIES {
        return Err(ErrorCode::MaxAuthoritiesReached);
    }
    vault.authorities.push(new_authority);
    Ok(())
}

/// Authority-only: removes a privileged identity from the margin vault, but
/// never the last one.
pub fn remove_authority(vault: &mut MarginVault, caller: u64, authority_to_remove: u64) -> (r:
    Result<(), ErrorCode>)
    requires
        old(vault).wf(),
    ensures
        final(vault).wf(),
        r is Ok <==> old(vault).spec_is_authority(caller) && old(vault).authorities@.len() > 1
            && old(vault).spec_is_authority(authority_to_remove),
        r is Ok ==> *final(vault) == (MarginVault {
            authorities: final(vault).authorities,
            ..*old(vault)
        }) && final(vault).authorities@ =~= old(vault).authorities@.filter(
            |a: u64| a != authority_to_remove,
        ),
        r is Err ==> *final(vault) == *old(vault),
        r matches Err(e) ==> (if !old(vault).spec_is_authority(caller) {
            e == ErrorCode::Unauthorized
        } else if old(vault).authorities@.len() <= 1 {
            e == ErrorCode::CannotRemoveLastAuthority
        } else {
            e == ErrorCode::AuthorityNotFound
        }),
{
    if !vault.is_authority(&caller) {
        return Err(ErrorCode::Unauthorized);
    }
    if vault.authorities.len() <= 1 {
        return Err(ErrorCode::CannotRemoveLastAuthority);
    }
    if !vault.is_authority(&authority_to_remove) {
        return Err(ErrorCode::AuthorityNotFound);
    }
    let ghost before = vault.authorities@;
    let n = vault.authorities.len();
    let mut kept: Vec<u64> = Vec::new();
    let mut i: usize = 0;
    while i < n
        invariant
            i <= n,
            n == before.len(),
            vault.authorities@ == before,
            kept@ =~= before.take(i as int).filter(|a: u64| a != authority_to_remove),
        decreases n - i,
    {
        proof {
            assert(before.take(i + 1) =~= before.take(i as int).push(before[i as int]));
            reveal_with_fuel(Seq::filter, 2);
        }
        let a = vault.authorities[i];
        if a != authority_to_remove {
            kept.push(a);
        }
        proof {
            assert(before.take(i as int).push(before[i as int]).drop_last() =~= before.take(
                i as int,
            ));
        }
        i = i + 1;
    }
    proof {
        assert(before.take(n as int) =~= before);
        crate::pool_state::lemma_filter_len_le(before, |a: u64| a != authority_to_remove);
    }
    vault.authorities = kept;
    Ok(())
}

} // verus!
