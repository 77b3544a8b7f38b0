//! NAV-based share accounting: deposits, withdrawals, privileged reserve
//! moves, and fee collection.
//!
//! Every operation computes all of its effects and checks before it mutates
//! anything, so a failing call leaves both records exactly as they were.

use vstd::prelude::*;

use crate::asset::AssetKind;
use crate::oracle_math::{get_sol_amount_from_usd, get_sol_usd_value, sol_to_usd, usd_to_sol};
use crate::pool_errors::ErrorCode;
use crate::pool_state::{PoolState, UserState};
use crate::rewards::{
    apply_reward_step, compute_reward_step, reward_step_fits, stepped_checkpoint, stepped_cum,
    stepped_dist_time, stepped_pending,
};

verus! {

/// Denominator of the 0.1% entry/exit fee.
pub const FEE_DIVISOR: u64 = 1000;

/// Scale between a 6-decimal USDC amount and an 8-decimal USD value.
pub const USDC_USD_SCALE: u64 = 100;

/// Price an operation values SOL at: the fresh oracle answer when it touches
/// the priced reserve, the stored price otherwise.
pub open spec fn effective_price(pool: PoolState, asset: AssetKind, oracle_price: i128) -> int {
    if asset == AssetKind::Sol {
        oracle_price as int
    } else {
        pool.sol_usd_price as int
    }
}

/// The fee bucket of the given asset.
pub open spec fn fee_bucket(pool: PoolState, asset: AssetKind) -> int {
    if asset == AssetKind::Sol {
        pool.accumulated_sol_fees as int
    } else {
        pool.accumulated_usdc_fees as int
    }
}

/// The reserve counter of the given asset.
pub open spec fn reserve_of(pool: PoolState, asset: AssetKind) -> int {
    if asset == AssetKind::Sol {
        pool.sol_deposited as int
    } else {
        pool.usdc_deposited as int
    }
}

/// Assets under management in 8-decimal USD: the SOL reserve at `price` plus
/// the USDC reserve scaled from 6 to 8 decimals.
pub open spec fn aum_usd(pool: PoolState, price: int) -> int {
    sol_to_usd(pool.sol_deposited as int, price) + pool.usdc_deposited * 100
}

/// The 0.1% fee on an amount, rounded down.
pub open spec fn fee_of(amount: int) -> int {
    amount / 1000
}

/// USD value (8 decimals) of a net deposit in native units.
pub open spec fn deposit_usd_value(asset: AssetKind, net: int, price: int) -> int {
    if asset == AssetKind::Sol {
        sol_to_usd(net, price)
    } else {
        net * 100
    }
}

/// Shares minted for a deposit worth `deposit_usd` against a pool holding
/// `aum` USD with `supply` shares outstanding. The first depositor sets the
/// 1:1 share-to-USD peg; later deposits mint proportionally, rounded down.
pub open spec fn shares_to_mint(deposit_usd: int, supply: u64, aum: int) -> int {
    if supply == 0 {
        deposit_usd
    } else {
        (deposit_usd * supply) / (if aum >= 1 {
            aum
        } else {
            1
        })
    }
}

/// USD value (8 decimals) that `shares` of `supply` outstanding claim from
/// `aum`, rounded down.
pub open spec fn withdraw_usd_value(shares: u64, aum: int, supply: u64) -> int {
    (shares * aum) / (if supply >= 1 {
        supply as int
    } else {
        1
    })
}

/// Native units of `asset` worth `usd` at `price`.
pub open spec fn withdraw_native_amount(asset: AssetKind, usd: int, price: int) -> int {
    if asset == AssetKind::Sol {
        usd_to_sol(usd, price)
    } else {
        usd / 100
    }
}

/// Every check a deposit performs, in one place: exactly when this holds,
/// `deposit` succeeds.
pub open spec fn deposit_ok(
    pool: PoolState,
    user: UserState,
    asset: AssetKind,
    amount: u64,
    oracle_price: i128,
    supply: u64,
    now: u64,
) -> bool {
    let price = effective_price(pool, asset, oracle_price);
    let fee = fee_of(amount as int);
    let net = amount - fee;
    let dusd = deposit_usd_value(asset, net, price);
    let aum = aum_usd(pool, price);
    &&& amount > 0
    &&& reward_step_fits(pool, user, supply, now)
    &&& fee_bucket(pool, asset) + fee <= u64::MAX
    &&& price >= 0
    &&& sol_to_usd(pool.sol_deposited as int, price) <= u64::MAX
    &&& pool.usdc_deposited * 100 <= u64::MAX
    &&& aum <= u64::MAX
    &&& reserve_of(pool, asset) + net <= u64::MAX
    &&& dusd <= u64::MAX
    &&& shares_to_mint(dusd, supply, aum) <= u64::MAX
    &&& user.lp_token_balance + shares_to_mint(dusd, supply, aum) <= u64::MAX
}

/// Deposits `token_amount` native units of `asset` for `owner`, mints shares
/// against the pool's pre-deposit value, and accrues rewards on the
/// pre-deposit balance.
///
/// A 0.1% fee (rounded down) goes to the asset's fee bucket; the remainder
/// enters the reserve. The deposit is valued in 8-decimal USD — the priced
/// asset through the fresh oracle answer, USDC 1:1 — and mints
/// `deposit_usd * supply / max(aum_before, 1)` shares, or `deposit_usd`
/// itself to the first depositor. The caller moves `token_amount` into the
/// vault and mints the returned share count to the depositor; a zero amount
/// is rejected and any value that cannot fit its machine word is a math
/// error, with no state change either way.
pub fn deposit(
    pool: &mut PoolState,
    user: &mut UserState,
    owner: u64,
    asset: AssetKind,
    token_amount: u64,
    oracle_price: i128,
    lp_supply: u64,
    now: u64,
) -> (r: Result<u64, ErrorCode>)
    requires
        old(pool).wf(),
        old(user).wf_for(*old(pool)),
    ensures
        final(pool).wf(),
        final(user).wf_for(*final(pool)),
        r is Ok <==> deposit_ok(
            *old(pool),
            *old(user),
            asset,
            token_amount,
            oracle_price,
            lp_supply,
            now,
        ),
        r matches Err(e) ==> (if token_amount == 0 {
            e == ErrorCode::InvalidTokenAmount
        } else {
            e == ErrorCode::MathError
        }),
        r is Err ==> *final(pool) == *old(pool) && *final(user) == *old(user),
        r matches Ok(minted) ==> {
            let price = effective_price(*old(pool), asset, oracle_price);
            let fee = fee_of(token_amount as int);
            let net = token_amount - fee;
            let dusd = deposit_usd_value(asset, net, price);
            let aum = aum_usd(*old(pool), price);
            &&& minted == shares_to_mint(dusd, lp_supply, aum)
            &&& final(pool).sol_usd_price == (if asset == AssetKind::Sol {
                oracle_price as int
            } else {
                old(pool).sol_usd_price as int
            })
            &&& final(pool).accumulated_sol_fees == old(pool).accumulated_sol_fees + (
            if asset == AssetKind::Sol {
                fee
            } else {
                0
            })
            &&& final(pool).accumulated_usdc_fees == old(pool).accumulated_usdc_fees + (
            if asset == AssetKind::Usdc {
                fee
            } else {
                0
            })
            &&& final(pool).sol_deposited == old(pool).sol_deposited + (
            if asset == AssetKind::Sol {
                net
            } else {
                0
            })
            &&& final(pool).usdc_deposited == old(pool).usdc_deposited + (
            if asset == AssetKind::Usdc {
                net
            } else {
                0
            })
            &&& final(pool).cumulative_reward_per_token == stepped_cum(*old(pool), lp_supply, now)
            &&& final(pool).last_distribution_time == stepped_dist_time(
                *old(pool),
                lp_supply,
                now,
            )
            &&& final(pool).admin == old(pool).admin
            &&& final(pool).authorities@ == old(pool).authorities@
            &&& final(pool).tokens_per_interval == old(pool).tokens_per_interval
            &&& final(pool).reward_start_time == old(pool).reward_start_time
            &&& final(pool).reward_end_time == old(pool).reward_end_time
            &&& final(pool).total_rewards_deposited == old(pool).total_rewards_deposited
            &&& final(pool).total_rewards_claimed == old(pool).total_rewards_claimed
            &&& final(user).owner == owner
            &&& final(user).lp_token_balance == old(user).lp_token_balance + minted
            &&& final(user).pending_rewards == stepped_pending(
                *old(pool),
                *old(user),
                lp_supply,
                now,
            )
            &&& final(user).previous_cumulated_reward_per_token == stepped_checkpoint(
                *old(pool),
                *old(user),
                lp_supply,
                now,
            )
            &&& final(user).last_claim_timestamp == (if old(user).lp_token_balance == 0
                && stepped_checkpoint(*old(pool), *old(user), lp_supply, now) == 0 {
                now as int
            } else {
                old(user).last_claim_timestamp as int
            })
        },
{
    if token_amount == 0 {
        return Err(ErrorCode::InvalidTokenAmount);
    }
    let step = compute_reward_step(pool, user, lp_supply, now)?;
    let fee_amount = token_amount / FEE_DIVISOR;
    let deposit_amount = token_amount - fee_amount;
    let price: i128 = match asset {
        AssetKind::Sol => oracle_price,
        AssetKind::Usdc => pool.sol_usd_price,
    };
    let fee_bucket_old = match asset {
        AssetKind::Sol => pool.accumulated_sol_fees,
        AssetKind::Usdc => pool.accumulated_usdc_fees,
    };
    let fee_bucket_new = match fee_bucket_old.checked_add(fee_amount) {
        Some(f) => f,
        None => {
            return Err(ErrorCode::MathError);
        },
    };
    let total_sol_usd = get_sol_usd_value(pool.sol_deposited, price)?;
    let usdc_usd = match pool.usdc_deposited.checked_mul(USDC_USD_SCALE) {
        Some(v) => v,
        None => {
            return Err(ErrorCode::MathError);
        },
    };
    let initial_aum = match total_sol_usd.checked_add(usdc_usd) {
        Some(a) => a,
        None => {
            return Err(ErrorCode::MathError);
        },
    };
    let reserve_old = match asset {
        AssetKind::Sol => pool.sol_deposited,
        AssetKind::Usdc => pool.usdc_deposited,
    };
    let reserve_new = match reserve_old.checked_add(deposit_amount) {
        Some(v) => v,
        None => {
            return Err(ErrorCode::MathError);
        },
    };
    let deposit_usd = match asset {
        AssetKind::Sol => get_sol_usd_value(deposit_amount, price)?,
        AssetKind::Usdc => {
            match deposit_amount.checked_mul(USDC_USD_SCALE) {
                Some(v) => v,
                None => {
                    return Err(ErrorCode::MathError);
                },
            }
        },
    };
    let lp_to_mint: u64 = if lp_supply == 0 {
        deposit_usd
    } else {
        proof {
            crate::oracle_math::lemma_u64_mul_fits_u128(deposit_usd, lp_supply);
        }
        let denom: u64 = if initial_aum >= 1 {
            initial_aum
        } else {
            1
        };
        let q: u128 = (deposit_usd as u128) * (lp_supply as u128) / (denom as u128);
        if q > u64::MAX as u128 {
            return Err(ErrorCode::MathError);
        }
        q as u64
    };
    let balance_new = match user.lp_token_balance.checked_add(lp_to_mint) {
        Some(b) => b,
        None => {
            return Err(ErrorCode::MathError);
        },
    };
    apply_reward_step(pool, user, &step);
    if user.lp_token_balance == 0 && user.previous_cumulated_reward_per_token == 0 {
        user.last_claim_timestamp = now;
    }
    match asset {
        AssetKind::Sol => {
            pool.sol_usd_price = oracle_price;
            pool.accumulated_sol_fees = fee_bucket_new;
            pool.sol_deposited = reserve_new;
        },
        AssetKind::Usdc => {
            pool.accumulated_usdc_fees = fee_bucket_new;
            pool.usdc_deposited = reserve_new;
        },
    }
    user.owner = owner;
    user.lp_token_balance = balance_new;
    Ok(lp_to_mint)
}

/// Every check a withdrawal performs, in one place: exactly when this holds
/// (and the position covers the shares), `withdraw` succeeds.
pub open spec fn withdraw_ok(
    pool: PoolState,
    user: UserState,
    asset: AssetKind,
    shares: u64,
    oracle_price: i128,
    supply: u64,
    now: u64,
) -> bool {
    let price = oracle_price as int;
    let aum = aum_usd(pool, price);
    let usd = withdraw_usd_value(shares, aum, supply);
    let native = withdraw_native_amount(asset, usd, price);
    let fee = fee_of(native);
    &&& shares > 0
    &&& user.lp_token_balance >= shares
    &&& reward_step_fits(pool, user, supply, now)
    &&& price >= 0
    &&& sol_to_usd(pool.sol_deposited as int, price) <= u64::MAX
    &&& pool.usdc_deposited * 100 <= u64::MAX
    &&& aum <= u64::MAX
    &&& (asset == AssetKind::Sol ==> price > 0 && usd <= u64::MAX)
    &&& native <= u64::MAX
    &&& fee_bucket(pool, asset) + fee <= u64::MAX
    &&& reserve_of(pool, asset) >= native
}

/// Burns `shares` and pays out their proportional slice of the pool's
/// current value in `asset`.
///
/// The shares claim `shares * aum / max(supply, 1)` USD, converted to native
/// units at the fresh oracle price; a 0.1% exit fee (rounded down) stays in
/// the asset's fee bucket and the full pre-fee amount leaves the reserve.
/// Rewards accrue on the pre-withdrawal balance first. The caller burns
/// `shares` from the owner and transfers the returned net amount out of the
/// vault; a zero amount or an uncovered balance is rejected, and any value
/// that cannot fit its machine word is a math error, with no state change
/// either way.
pub fn withdraw(
    pool: &mut PoolState,
    user: &mut UserState,
    asset: AssetKind,
    lp_token_amount: u64,
    oracle_price: i128,
    lp_supply: u64,
    now: u64,
) -> (r: Result<u64, ErrorCode>)
    requires
        old(pool).wf(),
        old(user).wf_for(*old(pool)),
    ensures
        final(pool).wf(),
        final(user).wf_for(*final(pool)),
        r is Ok <==> withdraw_ok(
            *old(pool),
            *old(user),
            asset,
            lp_token_amount,
            oracle_price,
            lp_supply,
            now,
        ),
        r matches Err(e) ==> (if lp_token_amount == 0 {
            e == ErrorCode::InvalidTokenAmount
        } else if old(user).lp_token_balance < lp_token_amount {
            e == ErrorCode::InsufficientLpBalance
        } else {
            e == ErrorCode::MathError
        }),
        r is Err ==> *final(pool) == *old(pool) && *final(user) == *old(user),
        r matches Ok(paid) ==> {
            let price = oracle_price as int;
            let aum = aum_usd(*old(pool), price);
            let usd = withdraw_usd_value(lp_token_amount, aum, lp_supply);
            let native = withdraw_native_amount(asset, usd, price);
            let fee = fee_of(native);
            &&& paid == native - fee
            &&& final(pool).sol_usd_price == oracle_price
            &&& final(pool).accumulated_sol_fees == old(pool).accumulated_sol_fees + (
            if asset == AssetKind::Sol {
                fee
            } else {
                0
            })
            &&& final(pool).accumulated_usdc_fees == old(pool).accumulated_usdc_fees + (
            if asset == AssetKind::Usdc {
                fee
            } else {
                0
            })
            &&& final(pool).sol_deposited == old(pool).sol_deposited - (
            if asset == AssetKind::Sol {
                native
            } else {
                0
            })
            &&& final(pool).usdc_deposited == old(pool).usdc_deposited - (
            if asset == AssetKind::Usdc {
                native
            } else {
                0
            })
            &&& final(pool).cumulative_reward_per_token == stepped_cum(*old(pool), lp_supply, now)
            &&& final(pool).last_distribution_time == stepped_dist_time(
                *old(pool),
                lp_supply,
                now,
            )
            &&& final(pool).admin == old(pool).admin
            &&& final(pool).authorities@ == old(pool).authorities@
            &&& final(pool).tokens_per_interval == old(pool).tokens_per_interval
            &&& final(pool).reward_start_time == old(pool).reward_start_time
            &&& final(pool).reward_end_time == old(pool).reward_end_time
            &&& final(pool).total_rewards_deposited == old(pool).total_rewards_deposited
            &&& final(pool).total_rewards_claimed == old(pool).total_rewards_claimed
            &&& final(user).owner == old(user).owner
            &&& final(user).last_claim_timestamp == old(user).last_claim_timestamp
            &&& final(user).lp_token_balance == old(user).lp_token_balance - lp_token_amount
            &&& final(user).pending_rewards == stepped_pending(
                *old(pool),
                *old(user),
                lp_supply,
                now,
            )
            &&& final(user).previous_cumulated_reward_per_token == stepped_checkpoint(
                *old(pool),
                *old(user),
                lp_supply,
                now,
            )
        },
{
    if lp_token_amount == 0 {
        return Err(ErrorCode::InvalidTokenAmount);
    }
    if user.lp_token_balance < lp_token_amount {
        return Err(ErrorCode::InsufficientLpBalance);
    }
    let step = compute_reward_step(pool, user, lp_supply, now)?;
    let total_sol_usd = get_sol_usd_value(pool.sol_deposited, oracle_price)?;
    let usdc_usd = match pool.usdc_deposited.checked_mul(USDC_USD_SCALE) {
        Some(v) => v,
        None => {
            return Err(ErrorCode::MathError);
        },
    };
    let current_aum = match total_sol_usd.checked_add(usdc_usd) {
        Some(a) => a,
        None => {
            return Err(ErrorCode::MathError);
        },
    };
    proof {
        crate::oracle_math::lemma_u64_mul_fits_u128(lp_token_amount, current_aum);
    }
    let denom: u64 = if lp_supply >= 1 {
        lp_supply
    } else {
        1
    };
    let withdrawal_usd_value: u128 = (lp_token_amount as u128) * (current_aum as u128) / (
    denom as u128);
    let token_amount: u64 = match asset {
        AssetKind::Sol => {
            if withdrawal_usd_value > u64::MAX as u128 {
                return Err(ErrorCode::MathError);
            }
            get_sol_amount_from_usd(withdrawal_usd_value as u64, oracle_price)?
        },
        AssetKind::Usdc => {
            let q = withdrawal_usd_value / 100;
            if q > u64::MAX as u128 {
                return Err(ErrorCode::MathError);
            }
            q as u64
        },
    };
    let fee_amount = token_amount / FEE_DIVISOR;
    let withdrawal_amount = token_amount - fee_amount;
    let fee_bucket_old = match asset {
        AssetKind::Sol => pool.accumulated_sol_fees,
        AssetKind::Usdc => pool.accumulated_usdc_fees,
    };
    let fee_bucket_new = match fee_bucket_old.checked_add(fee_amount) {
        Some(f) => f,
        None => {
            return Err(ErrorCode::MathError);
        },
    };
    let reserve_old = match asset {
        AssetKind::Sol => pool.sol_deposited,
        AssetKind::Usdc => pool.usdc_deposited,
    };
    let reserve_new = match reserve_old.checked_sub(token_amount) {
        Some(v) => v,
        None => {
            return Err(ErrorCode::MathError);
        },
    };
    apply_reward_step(pool, user, &step);
    pool.sol_usd_price = oracle_price;
    match asset {
        AssetKind::Sol => {
            pool.accumulated_sol_fees = fee_bucket_new;
            pool.sol_deposited = reserve_new;
        },
        AssetKind::Usdc => {
            pool.accumulated_usdc_fees = fee_bucket_new;
            pool.usdc_deposited = reserve_new;
        },
    }
    user.lp_token_balance = user.lp_token_balance - lp_token_amount;
    Ok(withdrawal_amount)
}

/// Privileged move of funds into a reserve without minting shares (used to
/// return market-making profit to the pool).
///
/// The caller must be the admin or an authority; the reserve grows by the
/// full amount, the oracle price is refreshed when the priced reserve is
/// touched, and the caller moves `amount` into the vault.
pub fn admin_deposit(
    pool: &mut PoolState,
    caller: u64,
    asset: AssetKind,
    amount: u64,
    oracle_price: i128,
) -> (r: Result<(), ErrorCode>)
    requires
        old(pool).wf(),
    ensures
        final(pool).wf(),
        r is Ok <==> old(pool).spec_is_privileged(caller) && reserve_of(*old(pool), asset) + amount
            <= u64::MAX,
        r matches Err(e) ==> (if !old(pool).spec_is_privileged(caller) {
            e == ErrorCode::Unauthorized
        } else {
            e == ErrorCode::MathError
        }),
        r is Err ==> *final(pool) == *old(pool),
        r is Ok ==> *final(pool) == (PoolState {
            sol_deposited: (old(pool).sol_deposited + (if asset == AssetKind::Sol {
                amount as int
            } else {
                0
            })) as u64,
            usdc_deposited: (old(pool).usdc_deposited + (if asset == AssetKind::Usdc {
                amount as int
            } else {
                0
            })) as u64,
            sol_usd_price: (if asset == AssetKind::Sol {
                oracle_price
            } else {
                old(pool).sol_usd_price
            }),
            ..*old(pool)
        }),
{
    if !pool.is_admin(&caller) && !pool.is_authority(&caller) {
        return Err(ErrorCode::Unauthorized);
    }
    match asset {
        AssetKind::Sol => {
            let new_reserve = match pool.sol_deposited.checked_add(amount) {
                Some(v) => v,
                None => {
                    return Err(ErrorCode::MathError);
                },
            };
            pool.sol_usd_price = oracle_price;
            pool.sol_deposited = new_reserve;
        },
        AssetKind::Usdc => {
            let new_reserve = match pool.usdc_deposited.checked_add(amount) {
                Some(v) => v,
                None => {
                    return Err(ErrorCode::MathError);
                },
            };
            pool.usdc_deposited = new_reserve;
        },
    }
    Ok(())
}

/// Privileged move of funds out of a reserve without burning shares (used to
/// fund market-making losses).
///
/// The caller must be the admin or an authority; the reserve shrinks by the
/// full amount — draining past zero is a math error — the oracle price is
/// refreshed when the priced reserve is touched, and the caller moves
/// `amount` out of the vault.
pub fn admin_withdraw(
    pool: &mut PoolState,
    caller: u64,
    asset: AssetKind,
    amount: u64,
    oracle_price: i128,
) -> (r: Result<(), ErrorCode>)
    requires
        old(pool).wf(),
    ensures
        final(pool).wf(),
        r is Ok <==> old(pool).spec_is_privileged(caller) && reserve_of(*old(pool), asset)
            >= amount,
        r matches Err(e) ==> (if !old(pool).spec_is_privileged(caller) {
            e == ErrorCode::Unauthorized
        } else {
            e == ErrorCode::MathError
        }),
        r is Err ==> *final(pool) == *old(pool),
        r is Ok ==> *final(pool) == (PoolState {
            sol_deposited: (old(pool).sol_deposited - (if asset == AssetKind::Sol {
                amount as int
            } else {
                0
            })) as u64,
            usdc_deposited: (old(pool).usdc_deposited - (if asset == AssetKind::Usdc {
                amount as int
            } else {
                0
            })) as u64,
            sol_usd_price: (if asset == AssetKind::Sol {
                oracle_price
            } else {
                old(pool).sol_usd_price
            }),
            ..*old(pool)
        }),
{
    if !pool.is_admin(&caller) && !pool.is_authority(&caller) {
        return Err(ErrorCode::Unauthorized);
    }
    match asset {
        AssetKind::Sol => {
            let new_reserve = match pool.sol_deposited.checked_sub(amount) {
                Some(v) => v,
                None => {
                    return Err(ErrorCode::MathError);
                },
            };
            pool.sol_usd_price = oracle_price;
            pool.sol_deposited = new_reserve;
        },
        AssetKind::Usdc => {
            let new_reserve = match pool.usdc_deposited.checked_sub(amount) {
                Some(v) => v,
                None => {
                    return Err(ErrorCode::MathError);
                },
            };
            pool.usdc_deposited = new_reserve;
        },
    }
    Ok(())
}

/// Privileged donation into a reserve: boosts the pool's value without
/// minting any shares in return.
///
/// Same gating and effect as `admin_deposit`; kept as its own entry point so
/// that settlement sweeps and deliberate donations stay distinguishable.
pub fn direct_deposit(
    pool: &mut PoolState,
    caller: u64,
    asset: AssetKind,
    amount: u64,
    oracle_price: i128,
) -> (r: Result<(), ErrorCode>)
    requires
        old(pool).wf(),
    ensures
        final(pool).wf(),
        r is Ok <==> old(pool).spec_is_privileged(caller) && reserve_of(*old(pool), asset) + amount
            <= u64::MAX,
        r matches Err(e) ==> (if !old(pool).spec_is_privileged(caller) {
            e == ErrorCode::Unauthorized
        } else {
            e == ErrorCode::MathError
        }),
        r is Err ==> *final(pool) == *old(pool),
        r is Ok ==> *final(pool) == (PoolState {
            sol_deposited: (old(pool).sol_deposited + (if asset == AssetKind::Sol {
                amount as int
            } else {
                0
            })) as u64,
            usdc_deposited: (old(pool).usdc_deposited + (if asset == AssetKind::Usdc {
                amount as int
            } else {
                0
            })) as u64,
            sol_usd_price: (if asset == AssetKind::Sol {
                oracle_price
            } else {
                old(pool).sol_usd_price
            }),
            ..*old(pool)
        }),
{
    admin_deposit(pool, caller, asset, amount, oracle_price)
}

/// Admin-only: empties both fee buckets and reports how much of each asset
/// to pay out.
///
/// Claiming an already-empty bucket is a successful no-op, not an error; the
/// caller transfers the returned SOL and USDC amounts from the vaults to the
/// admin's accounts.
pub fn claim_fees(pool: &mut PoolState, caller: u64) -> (r: Result<(u64, u64), ErrorCode>)
    requires
        old(pool).wf(),
    ensures
        final(pool).wf(),
        r is Ok <==> caller == old(pool).admin,
        r matches Err(e) ==> e == ErrorCode::Unauthorized && *final(pool) == *old(pool),
        r matches Ok(fees) ==> fees.0 == old(pool).accumulated_sol_fees && fees.1 == old(
            pool,
        ).accumulated_usdc_fees && *final(pool) == (PoolState {
            accumulated_sol_fees: 0,
            accumulated_usdc_fees: 0,
            ..*old(pool)
        }),
{
    if caller != pool.admin {
        return Err(ErrorCode::Unauthorized);
    }
    let sol_fees = pool.accumulated_sol_fees;
    let usdc_fees = pool.accumulated_usdc_fees;
    pool.accumulated_sol_fees = 0;
    pool.accumulated_usdc_fees = 0;
    Ok((sol_fees, usdc_fees))
}

} // verus!
