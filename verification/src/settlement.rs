//! Settlement bridge: executing timelocked margin withdrawals, allocating
//! trader PnL proportionally across the account's two balances, and moving
//! the settled value between the margin vault and the pool ledger.
//!
//! Cross-ledger moves go through the pool ledger's own privileged entry
//! points, so the pool's authorization and reserve accounting are enforced
//! on every settlement.

use vstd::prelude::*;

use crate::asset::AssetKind;
use crate::margin_errors::ErrorCode;
use crate::margin_ops::{balances_err, balances_valid, fees_err, fees_ok};
use crate::margin_state::{MarginAccount, MarginVault};
use crate::oracle_math::{sol_to_usd, usd_to_sol};
use crate::pool_state::PoolState;

verus! {

/// A signed external PnL amount (6 decimals), upscaled to the 8-decimal USD
/// convention.
pub open spec fn pnl_adj_usd(pnl: i64) -> int {
    vstd::math::abs(pnl as int) * 100int
}

/// USD value (8 decimals) of both balances together: SOL at `price`, USDC
/// 1:1.
pub open spec fn total_margin_usd(sol: int, usdc: int, price: int) -> int {
    sol_to_usd(sol, price) + usdc * 100
}

/// The slice of the PnL allocated to the SOL balance, proportional to its
/// share of the account's total USD value, rounded down.
pub open spec fn allocated_sol_usd(sol: int, usdc: int, price: int, pnl: i64) -> int {
    (pnl_adj_usd(pnl) * sol_to_usd(sol, price)) / total_margin_usd(sol, usdc, price)
}

/// The remainder of the PnL, allocated to the USDC balance.
pub open spec fn allocated_usdc_usd(sol: int, usdc: int, price: int, pnl: i64) -> int {
    pnl_adj_usd(pnl) - allocated_sol_usd(sol, usdc, price, pnl)
}

/// The SOL-side allocation in native 9-decimal units.
pub open spec fn settle_sol_native(sol: int, usdc: int, price: int, pnl: i64) -> int {
    usd_to_sol(allocated_sol_usd(sol, usdc, price, pnl), price)
}

/// The USDC-side allocation in native 6-decimal units.
pub open spec fn settle_usdc_native(sol: int, usdc: int, price: int, pnl: i64) -> int {
    allocated_usdc_usd(sol, usdc, price, pnl) / 100
}

/// Every intermediate of the proportional allocation fits its machine word
/// and the account has value to allocate against: exactly when this holds,
/// `compute_pnl_allocation` succeeds.
pub open spec fn alloc_fits(sol: int, usdc: int, price: int, pnl: i64) -> bool {
    &&& price > 0
    &&& sol * price <= u128::MAX
    &&& total_margin_usd(sol, usdc, price) > 0
    &&& pnl_adj_usd(pnl) * sol_to_usd(sol, price) <= u128::MAX
    &&& allocated_sol_usd(sol, usdc, price, pnl) * 1_000_000_000 <= u128::MAX
    &&& settle_sol_native(sol, usdc, price, pnl) <= u64::MAX
    &&& settle_usdc_native(sol, usdc, price, pnl) <= u64::MAX
}

/// Which error a failing allocation surfaces: a worthless account is
/// `InsufficientMargin`, any unrepresentable value is an overflow.
pub open spec fn alloc_err(sol: int, usdc: int, price: int, pnl: i64) -> ErrorCode {
    if price > 0 && sol * price <= u128::MAX && total_margin_usd(sol, usdc, price) == 0 {
        ErrorCode::InsufficientMargin
    } else {
        ErrorCode::ArithmeticOverflow
    }
}

/// Native amounts a PnL settlement moves on each side.
#[derive(Clone, Copy, Debug, PartialEq, Eq, Structural)]
pub struct PnlAllocation {
    /// SOL units credited (profit) or at most debited (loss).
    pub sol_native: u64,
    /// USDC units credited (profit) or at most debited (loss).
    pub usdc_native: u64,
}

/// The magnitude of a signed PnL as an unsigned value.
fn pnl_magnitude(pnl_update: i64) -> (r: u64)
    ensures
        r == vstd::math::abs(pnl_update as int),
{
    if pnl_update >= 0 {
        pnl_update as u64
    } else if pnl_update == i64::MIN {
        9_223_372_036_854_775_808u64
    } else {
        (-pnl_update) as u64
    }
}

/// `floor(a * b / c)` stays between zero and `a` whenever `b <= c`.
proof fn lemma_proportion_le(a: int, b: int, c: int)
    requires
        0 <= a,
        0 <= b <= c,
        0 < c,
    ensures
        0 <= (a * b) / c <= a,
{
    vstd::arithmetic::mul::lemma_mul_inequality(b, c, a);
    vstd::arithmetic::mul::lemma_mul_is_commutative(b, a);
    vstd::arithmetic::mul::lemma_mul_is_commutative(c, a);
    vstd::arithmetic::div_mod::lemma_div_is_ordered(a * b, a * c, c);
    vstd::arithmetic::div_mod::lemma_div_multiples_vanish(a, c);
    vstd::arithmetic::mul::lemma_mul_is_commutative(a, c);
    vstd::arithmetic::div_mod::lemma_div_pos_is_pos(a * b, c);
    vstd::arithmetic::mul::lemma_mul_nonnegative(a, b);
}

/// Splits a nonzero PnL across the two balances in proportion to their USD
/// value at `price` and converts each slice to native units.
///
/// The SOL slice is `pnl_usd * sol_value / total_value` (rounded down), the
/// USDC slice the remainder; an account with no value at all cannot absorb
/// PnL and is rejected as `InsufficientMargin`.
pub fn compute_pnl_allocation(
    sol_balance: u64,
    usdc_balance: u64,
    price: i128,
    pnl_update: i64,
) -> (r: Result<PnlAllocation, ErrorCode>)
    requires
        pnl_update != 0,
    ensures
        r is Ok <==> alloc_fits(sol_balance as int, usdc_balance as int, price as int, pnl_update),
        r matches Ok(a) ==> a.sol_native == settle_sol_native(
            sol_balance as int,
            usdc_balance as int,
            price as int,
            pnl_update,
        ) && a.usdc_native == settle_usdc_native(
            sol_balance as int,
            usdc_balance as int,
            price as int,
            pnl_update,
        ),
        r matches Err(e) ==> e == alloc_err(
            sol_balance as int,
            usdc_balance as int,
            price as int,
            pnl_update,
        ),
{
    if price <= 0 {
        return Err(ErrorCode::ArithmeticOverflow);
    }
    let price_u = price as u128;
    let pnl_abs = pnl_magnitude(pnl_update);
    let pnl_adj: u128 = (pnl_abs as u128) * 100;
    let sol_margin_scaled = match (sol_balance as u128).checked_mul(price_u) {
        Some(p) => p,
        None => {
            return Err(ErrorCode::ArithmeticOverflow);
        },
    };
    let sol_margin: u128 = sol_margin_scaled / 1_000_000_000;
    let usdc_margin: u128 = (usdc_balance as u128) * 100;
    proof {
        vstd::arithmetic::div_mod::lemma_div_is_ordered(
            sol_margin_scaled as int,
            u128::MAX as int,
            1_000_000_000,
        );
        vstd::arithmetic::div_mod::lemma_div_pos_is_pos(sol_margin_scaled as int, 1_000_000_000);
    }
    let total_margin: u128 = sol_margin + usdc_margin;
    if total_margin == 0 {
        return Err(ErrorCode::InsufficientMargin);
    }
    let allocated_sol_scaled = match pnl_adj.checked_mul(sol_margin) {
        Some(p) => p,
        None => {
            return Err(ErrorCode::ArithmeticOverflow);
        },
    };
    let allocated_sol: u128 = allocated_sol_scaled / total_margin;
    proof {
        lemma_proportion_le(pnl_adj as int, sol_margin as int, total_margin as int);
    }
    let allocated_usdc: u128 = pnl_adj - allocated_sol;
    let sol_native_scaled = match allocated_sol.checked_mul(1_000_000_000) {
        Some(p) => p,
        None => {
            return Err(ErrorCode::ArithmeticOverflow);
        },
    };
    let sol_native: u128 = sol_native_scaled / price_u;
    if sol_native > u64::MAX as u128 {
        return Err(ErrorCode::ArithmeticOverflow);
    }
    let usdc_native: u128 = allocated_usdc / 100;
    if usdc_native > u64::MAX as u128 {
        return Err(ErrorCode::ArithmeticOverflow);
    }
    Ok(
        PnlAllocation {
            sol_native: sol_native as u64,
            usdc_native: usdc_native as u64,
        },
    )
}

/// The account once both owed fees are deducted.
pub open spec fn account_after_fees(
    account: MarginAccount,
    sol_fees_owed: u64,
    usdc_fees_owed: u64,
) -> MarginAccount {
    MarginAccount {
        sol_balance: (account.sol_balance - sol_fees_owed) as u64,
        usdc_balance: (account.usdc_balance - usdc_fees_owed) as u64,
        ..account
    }
}

/// The account once a PnL of `pnl` is settled against it at `price`: profit
/// credits both slices, loss debits each slice clamped to its balance.
pub open spec fn account_after_pnl(acct: MarginAccount, price: int, pnl: i64) -> MarginAccount {
    if pnl == 0 {
        acct
    } else {
        let s = settle_sol_native(acct.sol_balance as int, acct.usdc_balance as int, price, pnl);
        let u = settle_usdc_native(acct.sol_balance as int, acct.usdc_balance as int, price, pnl);
        if pnl > 0 {
            MarginAccount {
                sol_balance: (acct.sol_balance + s) as u64,
                usdc_balance: (acct.usdc_balance + u) as u64,
                ..acct
            }
        } else {
            MarginAccount {
                sol_balance: (acct.sol_balance - vstd::math::min(
                    s,
                    acct.sol_balance as int,
                )) as u64,
                usdc_balance: (acct.usdc_balance - vstd::math::min(
                    u,
                    acct.usdc_balance as int,
                )) as u64,
                ..acct
            }
        }
    }
}

/// Settling this PnL actually moves funds between the two ledgers (a slice
/// can round down to zero and move nothing).
pub open spec fn settlement_touches_pool(acct: MarginAccount, price: int, pnl: i64) -> bool {
    let s = settle_sol_native(acct.sol_balance as int, acct.usdc_balance as int, price, pnl);
    let u = settle_usdc_native(acct.sol_balance as int, acct.usdc_balance as int, price, pnl);
    if pnl > 0 {
        s > 0 || u > 0
    } else {
        vstd::math::min(s, acct.sol_balance as int) > 0 || vstd::math::min(
            u,
            acct.usdc_balance as int,
        ) > 0
    }
}

/// The pool side of a nonzero-PnL settlement goes through: the allocation is
/// representable, the caller may move pool funds where any are moved, profit
/// is covered by the pool's reserves, and no balance or reserve overflows.
pub open spec fn pool_settle_ok(
    acct: MarginAccount,
    pool: PoolState,
    authority: u64,
    price: int,
    pnl: i64,
) -> bool {
    let s = settle_sol_native(acct.sol_balance as int, acct.usdc_balance as int, price, pnl);
    let u = settle_usdc_native(acct.sol_balance as int, acct.usdc_balance as int, price, pnl);
    &&& alloc_fits(acct.sol_balance as int, acct.usdc_balance as int, price, pnl)
    &&& (settlement_touches_pool(acct, price, pnl) ==> pool.spec_is_privileged(authority))
    &&& (if pnl > 0 {
        &&& (s > 0 ==> pool.sol_deposited >= s)
        &&& (u > 0 ==> pool.usdc_deposited >= u)
        &&& acct.sol_balance + s <= u64::MAX
        &&& acct.usdc_balance + u <= u64::MAX
    } else {
        let ds = vstd::math::min(s, acct.sol_balance as int);
        let du = vstd::math::min(u, acct.usdc_balance as int);
        &&& (ds > 0 ==> pool.sol_deposited + ds <= u64::MAX)
        &&& (du > 0 ==> pool.usdc_deposited + du <= u64::MAX)
    })
}

/// Every check an execution performs, in one place: exactly when this holds,
/// `execute_withdrawal` succeeds.
pub open spec fn execute_ok(
    account: MarginAccount,
    vault: MarginVault,
    pool: PoolState,
    authority: u64,
    pnl_update: i64,
    locked_sol: u64,
    locked_usdc: u64,
    sol_fees_owed: u64,
    usdc_fees_owed: u64,
    oracle_price: i128,
) -> bool {
    let acct1 = account_after_fees(account, sol_fees_owed, usdc_fees_owed);
    let acct2 = account_after_pnl(acct1, oracle_price as int, pnl_update);
    &&& account.has_pending()
    &&& vault.spec_is_authority(authority)
    &&& fees_ok(account, vault, sol_fees_owed, usdc_fees_owed)
    &&& balances_valid(acct1, locked_sol, locked_usdc)
    &&& (pnl_update != 0 ==> pool_settle_ok(
        acct1,
        pool,
        authority,
        oracle_price as int,
        pnl_update,
    ))
    &&& acct2.sol_balance >= account.pending_sol_withdrawal
    &&& acct2.usdc_balance >= account.pending_usdc_withdrawal
}

/// Which error a failing execution surfaces, in the order the checks run.
pub open spec fn execute_err(
    account: MarginAccount,
    vault: MarginVault,
    pool: PoolState,
    authority: u64,
    pnl_update: i64,
    locked_sol: u64,
    locked_usdc: u64,
    sol_fees_owed: u64,
    usdc_fees_owed: u64,
    oracle_price: i128,
) -> ErrorCode {
    let acct1 = account_after_fees(account, sol_fees_owed, usdc_fees_owed);
    if !account.has_pending() {
        ErrorCode::NoPendingWithdrawal
    } else if !vault.spec_is_authority(authority) {
        ErrorCode::InvalidAuthority
    } else if !fees_ok(account, vault, sol_fees_owed, usdc_fees_owed) {
        fees_err(account, vault, sol_fees_owed, usdc_fees_owed)
    } else if !balances_valid(acct1, locked_sol, locked_usdc) {
        balances_err(acct1, locked_sol, locked_usdc)
    } else if pnl_update != 0 && !alloc_fits(
        acct1.sol_balance as int,
        acct1.usdc_balance as int,
        oracle_price as int,
        pnl_update,
    ) {
        alloc_err(acct1.sol_balance as int, acct1.usdc_balance as int, oracle_price as int, pnl_update)
    } else if pnl_update != 0 && settlement_touches_pool(acct1, oracle_price as int, pnl_update)
        && !pool.spec_is_privileged(authority) {
        ErrorCode::Unauthorized
    } else {
        ErrorCode::ArithmeticOverflow
    }
}

/// Authority-only execution of an outstanding withdrawal request.
///
/// In order, atomically: owed fees move from the account into the vault's
/// buckets; the caller's locked-collateral figures are validated against the
/// pending amounts; a nonzero PnL is settled — profit drawn from the pool
/// ledger into the margin vault and credited, loss clamped to each balance
/// and pushed into the pool ledger — and finally both pending amounts leave
/// the balances and the account returns to Idle. Returns the SOL and USDC
/// amounts the caller must pay out of the margin vault to the owner; on any
/// error all three records are untouched.
pub fn execute_withdrawal(
    account: &mut MarginAccount,
    vault: &mut MarginVault,
    pool: &mut PoolState,
    authority: u64,
    pnl_update: i64,
    locked_sol: u64,
    locked_usdc: u64,
    sol_fees_owed: u64,
    usdc_fees_owed: u64,
    oracle_price: i128,
) -> (r: Result<(u64, u64), ErrorCode>)
    requires
        old(account).wf(),
        old(vault).wf(),
        old(pool).wf(),
    ensures
        final(account).wf(),
        final(vault).wf(),
        final(pool).wf(),
        r is Ok <==> execute_ok(
            *old(account),
            *old(vault),
            *old(pool),
            authority,
            pnl_update,
            locked_sol,
            locked_usdc,
            sol_fees_owed,
            usdc_fees_owed,
            oracle_price,
        ),
        r matches Err(e) ==> e == execute_err(
            *old(account),
            *old(vault),
            *old(pool),
            authority,
            pnl_update,
            locked_sol,
            locked_usdc,
            sol_fees_owed,
            usdc_fees_owed,
            oracle_price,
        ),
        r is Err ==> *final(account) == *old(account) && *final(vault) == *old(vault)
            && *final(pool) == *old(pool),
        r matches Ok(paid) ==> {
            let acct1 = account_after_fees(*old(account), sol_fees_owed, usdc_fees_owed);
            let acct2 = account_after_pnl(acct1, oracle_price as int, pnl_update);
            let s = settle_sol_native(
                acct1.sol_balance as int,
                acct1.usdc_balance as int,
                oracle_price as int,
                pnl_update,
            );
            let u = settle_usdc_native(
                acct1.sol_balance as int,
                acct1.usdc_balance as int,
                oracle_price as int,
                pnl_update,
            );
            &&& paid.0 == old(account).pending_sol_withdrawal
            &&& paid.1 == old(account).pending_usdc_withdrawal
            &&& *final(account) == (MarginAccount {
                sol_balance: (acct2.sol_balance - paid.0) as u64,
                usdc_balance: (acct2.usdc_balance - paid.1) as u64,
                pending_sol_withdrawal: 0,
                pending_usdc_withdrawal: 0,
                ..*old(account)
            })
            &&& *final(vault) == (MarginVault {
                sol_fees_accumulated: (old(vault).sol_fees_accumulated + sol_fees_owed) as u64,
                usdc_fees_accumulated: (old(vault).usdc_fees_accumulated + usdc_fees_owed) as u64,
                ..*old(vault)
            })
            &&& (pnl_update == 0 ==> *final(pool) == *old(pool))
            &&& (pnl_update > 0 ==> *final(pool) == (PoolState {
                sol_deposited: (old(pool).sol_deposited - s) as u64,
                usdc_deposited: (old(pool).usdc_deposited - u) as u64,
                sol_usd_price: oracle_price,
                ..*old(pool)
            }))
            &&& (pnl_update < 0 ==> *final(pool) == (PoolState {
                sol_deposited: (old(pool).sol_deposited + vstd::math::min(
                    s,
                    acct1.sol_balance as int,
                )) as u64,
                usdc_deposited: (old(pool).usdc_deposited + vstd::math::min(
                    u,
                    acct1.usdc_balance as int,
                )) as u64,
                sol_usd_price: oracle_price,
                ..*old(pool)
            }))
        },
{
    if account.pending_sol_withdrawal == 0 && account.pending_usdc_withdrawal == 0 {
        return Err(ErrorCode::NoPendingWithdrawal);
    }
    if !vault.is_authority(&authority) {
        return Err(ErrorCode::InvalidAuthority);
    }
    if account.sol_balance < sol_fees_owed {
        return Err(ErrorCode::LiquidatablePosition);
    }
    let vault_sol_acc_new = match vault.sol_fees_accumulated.checked_add(sol_fees_owed) {
        Some(v) => v,
        None => {
            return Err(ErrorCode::ArithmeticOverflow);
        },
    };
    if account.usdc_balance < usdc_fees_owed {
        return Err(ErrorCode::LiquidatablePosition);
    }
    let vault_usdc_acc_new = match vault.usdc_fees_accumulated.checked_add(usdc_fees_owed) {
        Some(v) => v,
        None => {
            return Err(ErrorCode::ArithmeticOverflow);
        },
    };
    let bal_sol_1: u64 = account.sol_balance - sol_fees_owed;
    let bal_usdc_1: u64 = account.usdc_balance - usdc_fees_owed;
    let available_sol = match bal_sol_1.checked_sub(locked_sol) {
        Some(v) => v,
        None => {
            return Err(ErrorCode::ArithmeticOverflow);
        },
    };
    let available_usdc = match bal_usdc_1.checked_sub(locked_usdc) {
        Some(v) => v,
        None => {
            return Err(ErrorCode::ArithmeticOverflow);
        },
    };
    if account.pending_sol_withdrawal > 0 && available_sol < account.pending_sol_withdrawal {
        return Err(ErrorCode::InsufficientWithdrawableMargin);
    }
    if account.pending_usdc_withdrawal > 0 && available_usdc < account.pending_usdc_withdrawal {
        return Err(ErrorCode::InsufficientWithdrawableMargin);
    }
    let mut bal_sol_2: u64 = bal_sol_1;
    let mut bal_usdc_2: u64 = bal_usdc_1;
    let mut credit_sol: u64 = 0;
    let mut credit_usdc: u64 = 0;
    let mut debit_sol: u64 = 0;
    let mut debit_usdc: u64 = 0;
    if pnl_update != 0 {
        let alloc = compute_pnl_allocation(bal_sol_1, bal_usdc_1, oracle_price, pnl_update)?;
        if pnl_update > 0 {
            if alloc.sol_native > 0 || alloc.usdc_native > 0 {
                if !pool.is_admin(&authority) && !pool.is_authority(&authority) {
                    return Err(ErrorCode::Unauthorized);
                }
            }
            if alloc.sol_native > 0 && pool.sol_deposited < alloc.sol_native {
                return Err(ErrorCode::ArithmeticOverflow);
            }
            if alloc.usdc_native > 0 && pool.usdc_deposited < alloc.usdc_native {
                return Err(ErrorCode::ArithmeticOverflow);
            }
            bal_sol_2 = match bal_sol_1.checked_add(alloc.sol_native) {
                Some(v) => v,
                None => {
                    return Err(ErrorCode::ArithmeticOverflow);
                },
            };
            bal_usdc_2 = match bal_usdc_1.checked_add(alloc.usdc_native) {
                Some(v) => v,
                None => {
                    return Err(ErrorCode::ArithmeticOverflow);
                },
            };
            credit_sol = alloc.sol_native;
            credit_usdc = alloc.usdc_native;
        } else {
            debit_sol = if alloc.sol_native <= bal_sol_1 {
                alloc.sol_native
            } else {
                bal_sol_1
            };
            debit_usdc = if alloc.usdc_native <= bal_usdc_1 {
                alloc.usdc_native
            } else {
                bal_usdc_1
            };
            if debit_sol > 0 || debit_usdc > 0 {
                if !pool.is_admin(&authority) && !pool.is_authority(&authority) {
                    return Err(ErrorCode::Unauthorized);
                }
            }
            if debit_sol > 0 && pool.sol_deposited > u64::MAX - debit_sol {
                return Err(ErrorCode::ArithmeticOverflow);
            }
            if debit_usdc > 0 && pool.usdc_deposited > u64::MAX - debit_usdc {
                return Err(ErrorCode::ArithmeticOverflow);
            }
            bal_sol_2 = bal_sol_1 - debit_sol;
            bal_usdc_2 = bal_usdc_1 - debit_usdc;
        }
    }
    if bal_sol_2 < account.pending_sol_withdrawal {
        return Err(ErrorCode::ArithmeticOverflow);
    }
    if bal_usdc_2 < account.pending_usdc_withdrawal {
        return Err(ErrorCode::ArithmeticOverflow);
    }
    if pnl_update != 0 {
        pool.sol_usd_price = oracle_price;
        if credit_sol > 0 {
            match crate::pool_ops::admin_withdraw(
                pool,
                authority,
                AssetKind::Sol,
                credit_sol,
                oracle_price,
            ) {
                Ok(_) => {},
                Err(_) => {
                    proof {
                        assert(false);
                    }
                    return Err(ErrorCode::ArithmeticOverflow);
                },
            }
        }
        if credit_usdc > 0 {
            match crate::pool_ops::admin_withdraw(
                pool,
                authority,
                AssetKind::Usdc,
                credit_usdc,
                oracle_price,
            ) {
                Ok(_) => {},
                Err(_) => {
                    proof {
                        assert(false);
                    }
                    return Err(ErrorCode::ArithmeticOverflow);
                },
            }
        }
        if debit_sol > 0 {
            match crate::pool_ops::admin_deposit(
                pool,
                authority,
                AssetKind::Sol,
                debit_sol,
                oracle_price,
            ) {
                Ok(_) => {},
                Err(_) => {
                    proof {
                        assert(false);
                    }
                    return Err(ErrorCode::ArithmeticOverflow);
                },
            }
        }
        if debit_usdc > 0 {
            match crate::pool_ops::admin_deposit(
                pool,
                authority,
                AssetKind::Usdc,
                debit_usdc,
                oracle_price,
            ) {
                Ok(_) => {},
                Err(_) => {
                    proof {
                        assert(false);
                    }
                    return Err(ErrorCode::ArithmeticOverflow);
                },
            }
        }
    }
    vault.sol_fees_accumulated = vault_sol_acc_new;
    vault.usdc_fees_accumulated = vault_usdc_acc_new;
    let paid_sol = account.pending_sol_withdrawal;
    let paid_usdc = account.pending_usdc_withdrawal;
    account.sol_balance = bal_sol_2 - paid_sol;
    account.usdc_balance = bal_usdc_2 - paid_usdc;
    account.pending_sol_withdrawal = 0;
    account.pending_usdc_withdrawal = 0;
    Ok((paid_sol, paid_usdc))
}

/// Authority-only force-close of one asset side of a margin account.
///
/// Cancels any pending withdrawal, zeroes the chosen balance, and sweeps the
/// whole amount into the pool ledger in one step, bypassing proportional
/// allocation — for accounts whose losses exceed their margin. Returns the
/// swept amount; the caller moves it from the margin vault into the pool
/// vault.
pub fn liquidate_margin_account(
    account: &mut MarginAccount,
    vault: &MarginVault,
    pool: &mut PoolState,
    asset: AssetKind,
    authority: u64,
    oracle_price: i128,
) -> (r: Result<u64, ErrorCode>)
    requires
        old(account).wf(),
        vault.wf(),
        old(pool).wf(),
    ensures
        final(account).wf(),
        final(pool).wf(),
        r is Ok <==> vault.spec_is_authority(authority) && {
            let bal = if asset == AssetKind::Sol {
                old(account).sol_balance
            } else {
                old(account).usdc_balance
            };
            bal > 0 ==> old(pool).spec_is_privileged(authority) && crate::pool_ops::reserve_of(
                *old(pool),
                asset,
            ) + bal <= u64::MAX
        },
        r matches Err(e) ==> {
            let bal = if asset == AssetKind::Sol {
                old(account).sol_balance
            } else {
                old(account).usdc_balance
            };
            if !vault.spec_is_authority(authority) {
                e == ErrorCode::UnauthorizedLiquidation
            } else if bal > 0 && !old(pool).spec_is_privileged(authority) {
                e == ErrorCode::Unauthorized
            } else {
                e == ErrorCode::ArithmeticOverflow
            }
        },
        r is Err ==> *final(account) == *old(account) && *final(pool) == *old(pool),
        r matches Ok(swept) ==> {
            let bal = if asset == AssetKind::Sol {
                old(account).sol_balance
            } else {
                old(account).usdc_balance
            };
            &&& swept == bal
            &&& *final(account) == (MarginAccount {
                sol_balance: (if asset == AssetKind::Sol {
                    0
                } else {
                    old(account).sol_balance
                }),
                usdc_balance: (if asset == AssetKind::Usdc {
                    0
                } else {
                    old(account).usdc_balance
                }),
                pending_sol_withdrawal: 0,
                pending_usdc_withdrawal: 0,
                ..*old(account)
            })
            &&& (bal == 0 ==> *final(pool) == *old(pool))
            &&& (bal > 0 ==> *final(pool) == (PoolState {
                sol_deposited: (old(pool).sol_deposited + (if asset == AssetKind::Sol {
                    bal as int
                } else {
                    0
                })) as u64,
                usdc_deposited: (old(pool).usdc_deposited + (if asset == AssetKind::Usdc {
                    bal as int
                } else {
                    0
                })) as u64,
                sol_usd_price: (if asset == AssetKind::Sol {
                    oracle_price
                } else {
                    old(pool).sol_usd_price
                }),
                ..*old(pool)
            }))
        },
{
    if !vault.is_authority(&authority) {
        return Err(ErrorCode::UnauthorizedLiquidation);
    }
    let current_balance = match asset {
        AssetKind::Sol => account.sol_balance,
        AssetKind::Usdc => account.usdc_balance,
    };
    if current_balance > 0 {
        match crate::pool_ops::direct_deposit(pool, authority, asset, current_balance, oracle_price)
        {
            Ok(_) => {},
            Err(e) => {
                if e == crate::pool_errors::ErrorCode::Unauthorized {
                    return Err(ErrorCode::Unauthorized);
                }
                return Err(ErrorCode::ArithmeticOverflow);
            },
        }
        match asset {
            AssetKind::Sol => {
                account.sol_balance = 0;
            },
            AssetKind::Usdc => {
                account.usdc_balance = 0;
            },
        }
    }
    account.pending_sol_withdrawal = 0;
    account.pending_usdc_withdrawal = 0;
    Ok(current_balance)
}

} // verus!
