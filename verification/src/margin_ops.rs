//! Margin deposits and the two-phase withdrawal state machine.
//!
//! An account is Idle while both pending fields are zero and Requested while
//! either is nonzero. `request_withdrawal` moves Idle to Requested (gated by
//! the timelock), `cancel_withdrawal` moves Requested back to Idle, and
//! execution (in the settlement module) pays the request out.

use vstd::prelude::*;

use crate::asset::AssetKind;
use crate::margin_errors::ErrorCode;
use crate::margin_state::{MarginAccount, MarginVault};

verus! {

/// Credits a deposit to a trader's collateral balance.
///
/// A zero amount is rejected; a fresh account (owner zero) is claimed by the
/// depositor, and anyone else's account cannot be deposited into. The caller
/// moves `amount` into the margin vault's token account.
pub fn deposit_margin(
    account: &mut MarginAccount,
    owner: u64,
    asset: AssetKind,
    amount: u64,
) -> (r: Result<(), ErrorCode>)
    requires
        old(account).wf(),
        owner != 0,
    ensures
        final(account).wf(),
        r is Ok <==> amount > 0 && (old(account).owner == 0 || old(account).owner == owner) && (
        if asset == AssetKind::Sol {
            old(account).sol_balance + amount <= u64::MAX
        } else {
            old(account).usdc_balance + amount <= u64::MAX
        }),
        r matches Err(e) ==> (if amount == 0 {
            e == ErrorCode::ZeroDepositAmount
        } else if old(account).owner != 0 && old(account).owner != owner {
            e == ErrorCode::InvalidOwner
        } else {
            e == ErrorCode::ArithmeticOverflow
        }),
        r is Err ==> *final(account) == *old(account),
        r is Ok ==> *final(account) == (MarginAccount {
            owner,
            sol_balance: (old(account).sol_balance + (if asset == AssetKind::Sol {
                amount as int
            } else {
                0
            })) as u64,
            usdc_balance: (old(account).usdc_balance + (if asset == AssetKind::Usdc {
                amount as int
            } else {
                0
            })) as u64,
            ..*old(account)
        }),
{
    if amount == 0 {
        return Err(ErrorCode::ZeroDepositAmount);
    }
    if account.owner != 0 && account.owner != owner {
        return Err(ErrorCode::InvalidOwner);
    }
    match asset {
        AssetKind::Sol => {
            let new_balance = match account.sol_balance.checked_add(amount) {
                Some(b) => b,
                None => {
                    return Err(ErrorCode::ArithmeticOverflow);
                },
            };
            account.sol_balance = new_balance;
        },
        AssetKind::Usdc => {
            let new_balance = match account.usdc_balance.checked_add(amount) {
                Some(b) => b,
                None => {
                    return Err(ErrorCode::ArithmeticOverflow);
                },
            };
            account.usdc_balance = new_balance;
        },
    }
    account.owner = owner;
    Ok(())
}

/// The timelock between two requests has passed at `now`.
pub open spec fn timelock_expired(account: MarginAccount, vault: MarginVault, now: i64) -> bool {
    now >= account.last_withdrawal_request + vault.withdrawal_timelock
}

/// Owner-only: files a withdrawal request for one asset, moving the account
/// from Idle to Requested.
///
/// Rejected while another request is outstanding and until the timelock
/// since the last request has passed. The requested amount is not checked
/// against the balance here — positive PnL may still raise it — that check
/// belongs to execution. The chosen asset's pending field is set, the other
/// cleared, and the request clock restarts.
pub fn request_withdrawal(
    account: &mut MarginAccount,
    vault: &MarginVault,
    owner: u64,
    amount: u64,
    is_sol: bool,
    now: i64,
) -> (r: Result<(), ErrorCode>)
    requires
        old(account).wf(),
        vault.wf(),
        now >= 0,
    ensures
        final(account).wf(),
        r is Ok <==> owner == old(account).owner && !old(account).has_pending()
            && timelock_expired(*old(account), *vault, now),
        r matches Err(e) ==> (if owner != old(account).owner {
            e == ErrorCode::UnauthorizedAccount
        } else if old(account).has_pending() {
            e == ErrorCode::ExistingWithdrawalRequest
        } else {
            e == ErrorCode::WithdrawalTimelockNotExpired
        }),
        r is Err ==> *final(account) == *old(account),
        r is Ok ==> *final(account) == (MarginAccount {
            pending_sol_withdrawal: (if is_sol {
                amount
            } else {
                0
            }),
            pending_usdc_withdrawal: (if is_sol {
                0
            } else {
                amount
            }),
            last_withdrawal_request: now,
            ..*old(account)
        }),
{
    if owner != account.owner {
        return Err(ErrorCode::UnauthorizedAccount);
    }
    if account.pending_sol_withdrawal > 0 || account.pending_usdc_withdrawal > 0 {
        return Err(ErrorCode::ExistingWithdrawalRequest);
    }
    let unlocked = match account.last_withdrawal_request.checked_add(vault.withdrawal_timelock) {
        Some(t) => now >= t,
        None => false,
    };
    if !unlocked {
        return Err(ErrorCode::WithdrawalTimelockNotExpired);
    }
    if is_sol {
        account.pending_sol_withdrawal = amount;
        account.pending_usdc_withdrawal = 0;
    } else {
        account.pending_sol_withdrawal = 0;
        account.pending_usdc_withdrawal = amount;
    }
    account.last_withdrawal_request = now;
    Ok(())
}

/// Cancels an outstanding withdrawal request, returning the account to Idle.
///
/// Allowed to the account's owner or any vault authority; an Idle account
/// has nothing to cancel and is rejected.
pub fn cancel_withdrawal(account: &mut MarginAccount, vault: &MarginVault, caller: u64) -> (r:
    Result<(), ErrorCode>)
    requires
        old(account).wf(),
    ensures
        final(account).wf(),
        r is Ok <==> old(account).has_pending() && (caller == old(account).owner
            || vault.spec_is_authority(caller)),
        r matches Err(e) ==> (if !old(account).has_pending() {
            e == ErrorCode::NoPendingWithdrawal
        } else {
            e == ErrorCode::UnauthorizedExecution
        }),
        r is Err ==> *final(account) == *old(account),
        r is Ok ==> *final(account) == (MarginAccount {
            pending_sol_withdrawal: 0,
            pending_usdc_withdrawal: 0,
            ..*old(account)
        }),
{
    if account.pending_sol_withdrawal == 0 && account.pending_usdc_withdrawal == 0 {
        return Err(ErrorCode::NoPendingWithdrawal);
    }
    if caller != account.owner && !vault.is_authority(&caller) {
        return Err(ErrorCode::UnauthorizedExecution);
    }
    account.pending_sol_withdrawal = 0;
    account.pending_usdc_withdrawal = 0;
    Ok(())
}

/// Both owed fees are covered by the account and fit the vault's buckets.
pub open spec fn fees_ok(
    account: MarginAccount,
    vault: MarginVault,
    sol_fees_owed: u64,
    usdc_fees_owed: u64,
) -> bool {
    &&& account.sol_balance >= sol_fees_owed
    &&& vault.sol_fees_accumulated + sol_fees_owed <= u64::MAX
    &&& account.usdc_balance >= usdc_fees_owed
    &&& vault.usdc_fees_accumulated + usdc_fees_owed <= u64::MAX
}

/// Which error a failing fee deduction surfaces, checking SOL before USDC.
pub open spec fn fees_err(
    account: MarginAccount,
    vault: MarginVault,
    sol_fees_owed: u64,
    usdc_fees_owed: u64,
) -> ErrorCode {
    if account.sol_balance < sol_fees_owed {
        ErrorCode::LiquidatablePosition
    } else if vault.sol_fees_accumulated + sol_fees_owed > u64::MAX {
        ErrorCode::ArithmeticOverflow
    } else if account.usdc_balance < usdc_fees_owed {
        ErrorCode::LiquidatablePosition
    } else {
        ErrorCode::ArithmeticOverflow
    }
}

/// Moves owed trading fees from a margin account into the vault's fee
/// buckets.
///
/// A balance smaller than its owed fee marks the position liquidatable;
/// either both deductions commit or neither does.
pub fn process_fees(
    account: &mut MarginAccount,
    vault: &mut MarginVault,
    sol_fees_owed: u64,
    usdc_fees_owed: u64,
) -> (r: Result<(), ErrorCode>)
    requires
        old(account).wf(),
        old(vault).wf(),
    ensures
        final(account).wf(),
        final(vault).wf(),
        r is Ok <==> fees_ok(*old(account), *old(vault), sol_fees_owed, usdc_fees_owed),
        r matches Err(e) ==> e == fees_err(
            *old(account),
            *old(vault),
            sol_fees_owed,
            usdc_fees_owed,
        ),
        r is Err ==> *final(account) == *old(account) && *final(vault) == *old(vault),
        r is Ok ==> *final(account) == (MarginAccount {
            sol_balance: (old(account).sol_balance - sol_fees_owed) as u64,
            usdc_balance: (old(account).usdc_balance - usdc_fees_owed) as u64,
            ..*old(account)
        }) && *final(vault) == (MarginVault {
            sol_fees_accumulated: (old(vault).sol_fees_accumulated + sol_fees_owed) as u64,
            usdc_fees_accumulated: (old(vault).usdc_fees_accumulated + usdc_fees_owed) as u64,
            ..*old(vault)
        }),
{
    if account.sol_balance < sol_fees_owed {
        return Err(ErrorCode::LiquidatablePosition);
    }
    let sol_acc_new = match vault.sol_fees_accumulated.checked_add(sol_fees_owed) {
        Some(v) => v,
        None => {
            return Err(ErrorCode::ArithmeticOverflow);
        },
    };
    if account.usdc_balance < usdc_fees_owed {
        return Err(ErrorCode::LiquidatablePosition);
    }
    let usdc_acc_new = match vault.usdc_fees_accumulated.checked_add(usdc_fees_owed) {
        Some(v) => v,
        None => {
            return Err(ErrorCode::ArithmeticOverflow);
        },
    };
    account.sol_balance = account.sol_balance - sol_fees_owed;
    account.usdc_balance = account.usdc_balance - usdc_fees_owed;
    vault.sol_fees_accumulated = sol_acc_new;
    vault.usdc_fees_accumulated = usdc_acc_new;
    Ok(())
}

/// After reserving `locked_*` collateral for open positions, the remaining
/// balances still cover any pending withdrawal.
pub open spec fn balances_valid(account: MarginAccount, locked_sol: u64, locked_usdc: u64) -> bool {
    &&& account.sol_balance >= locked_sol
    &&& account.usdc_balance >= locked_usdc
    &&& (account.pending_sol_withdrawal > 0 ==> account.sol_balance - locked_sol
        >= account.pending_sol_withdrawal)
    &&& (account.pending_usdc_withdrawal > 0 ==> account.usdc_balance - locked_usdc
        >= account.pending_usdc_withdrawal)
}

/// Which error a failing balance validation surfaces, checking the locked
/// subtractions before the pending comparisons.
pub open spec fn balances_err(account: MarginAccount, locked_sol: u64, locked_usdc: u64) -> ErrorCode {
    if account.sol_balance < locked_sol || account.usdc_balance < locked_usdc {
        ErrorCode::ArithmeticOverflow
    } else {
        ErrorCode::InsufficientWithdrawableMargin
    }
}

/// Checks that the account's free collateral — balance minus the caller's
/// `locked_*` amounts reserved against open positions — covers its pending
/// withdrawal; read-only.
pub fn validate_balances(account: &MarginAccount, locked_sol: u64, locked_usdc: u64) -> (r: Result<
    (),
    ErrorCode,
>)
    ensures
        r is Ok <==> balances_valid(*account, locked_sol, locked_usdc),
        r matches Err(e) ==> e == balances_err(*account, locked_sol, locked_usdc),
{
    let available_sol = match account.sol_balance.checked_sub(locked_sol) {
        Some(v) => v,
        None => {
            return Err(ErrorCode::ArithmeticOverflow);
        },
    };
    let available_usdc = match account.usdc_balance.checked_sub(locked_usdc) {
        Some(v) => v,
        None => {
            return Err(ErrorCode::ArithmeticOverflow);
        },
    };
    if account.pending_sol_withdrawal > 0 && available_sol < account.pending_sol_withdrawal {
        return Err(ErrorCode::InsufficientWithdrawableMargin);
    }
    if account.pending_usdc_withdrawal > 0 && available_usdc < account.pending_usdc_withdrawal {
        return Err(ErrorCode::InsufficientWithdrawableMargin);
    }
    Ok(())
}

/// Authority-only: empties both margin fee buckets and reports how much of
/// each asset to pay out; claiming empty buckets is a successful no-op.
pub fn claim_fees(vault: &mut MarginVault, caller: u64) -> (r: Result<(u64, u64), ErrorCode>)
    requires
        old(vault).wf(),
    ensures
        final(vault).wf(),
        r is Ok <==> old(vault).spec_is_authority(caller),
        r matches Err(e) ==> e == ErrorCode::UnauthorizedExecution && *final(vault) == *old(vault),
        r matches Ok(fees) ==> fees.0 == old(vault).sol_fees_accumulated && fees.1 == old(
            vault,
        ).usdc_fees_accumulated && *final(vault) == (MarginVault {
            sol_fees_accumulated: 0,
            usdc_fees_accumulated: 0,
            ..*old(vault)
        }),
{
    if !vault.is_authority(&caller) {
        return Err(ErrorCode::UnauthorizedExecution);
    }
    let sol_fees = vault.sol_fees_accumulated;
    let usdc_fees = vault.usdc_fees_accumulated;
    vault.sol_fees_accumulated = 0;
    vault.usdc_fees_accumulated = 0;
    Ok((sol_fees, usdc_fees))
}

} // verus!
