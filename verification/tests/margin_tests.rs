use perp_core::asset::AssetKind;
use perp_core::feed;
use perp_core::margin_errors::ErrorCode;
use perp_core::margin_ops::{
    cancel_withdrawal, claim_fees, deposit_margin, process_fees, request_withdrawal,
    validate_balances,
};
use perp_core::margin_state::{
    add_authority, initialize as initialize_vault, new_margin_account, remove_authority,
    update_chainlink_addresses, MarginAccount, MarginVault,
};
use perp_core::pool_ops::admin_deposit;
use perp_core::pool_state::{add_authority as pool_add_authority, initialize as initialize_pool};
use perp_core::settlement::{
    compute_pnl_allocation, execute_withdrawal, liquidate_margin_account,
};

const POOL_ADMIN: u64 = 1;
const KEEPER: u64 = 2;
const TRADER: u64 = 10;
const STRANGER: u64 = 99;

// 100 USD in the oracle's 8-decimal convention.
const PRICE_100: i128 = 10_000_000_000;

fn vault_with_keeper() -> MarginVault {
    initialize_vault(KEEPER, 100, 7, 8)
}

fn funded_account() -> MarginAccount {
    let mut acct = new_margin_account();
    // 2 SOL and 100 USDC.
    deposit_margin(&mut acct, TRADER, AssetKind::Sol, 2_000_000_000).unwrap();
    deposit_margin(&mut acct, TRADER, AssetKind::Usdc, 100_000_000).unwrap();
    acct
}

#[test]
fn margin_deposit_claims_and_credits() {
    let mut acct = new_margin_account();
    assert_eq!(
        deposit_margin(&mut acct, TRADER, AssetKind::Sol, 0),
        Err(ErrorCode::ZeroDepositAmount)
    );
    deposit_margin(&mut acct, TRADER, AssetKind::Sol, 500).unwrap();
    assert_eq!(acct.owner, TRADER);
    assert_eq!(acct.sol_balance, 500);
    deposit_margin(&mut acct, TRADER, AssetKind::Usdc, 70).unwrap();
    assert_eq!(acct.usdc_balance, 70);
    // Someone else's account cannot be deposited into.
    assert_eq!(
        deposit_margin(&mut acct, STRANGER, AssetKind::Sol, 1),
        Err(ErrorCode::InvalidOwner)
    );
    // Overflow is rejected, not wrapped.
    assert_eq!(
        deposit_margin(&mut acct, TRADER, AssetKind::Sol, u64::MAX),
        Err(ErrorCode::ArithmeticOverflow)
    );
}

#[test]
fn request_after_request_always_fails() {
    let vault = vault_with_keeper();
    let mut acct = funded_account();
    request_withdrawal(&mut acct, &vault, TRADER, 1_000, true, 100).unwrap();
    assert_eq!(acct.pending_sol_withdrawal, 1_000);
    assert_eq!(acct.pending_usdc_withdrawal, 0);
    assert_eq!(acct.last_withdrawal_request, 100);
    // A second request while one is outstanding fails, whatever it asks.
    assert_eq!(
        request_withdrawal(&mut acct, &vault, TRADER, 5, false, 10_000),
        Err(ErrorCode::ExistingWithdrawalRequest)
    );
    assert_eq!(acct.pending_sol_withdrawal, 1_000);
}

#[test]
fn request_respects_timelock_and_owner() {
    let vault = vault_with_keeper();
    let mut acct = funded_account();
    assert_eq!(
        request_withdrawal(&mut acct, &vault, STRANGER, 1, true, 1_000),
        Err(ErrorCode::UnauthorizedAccount)
    );
    // The vault's timelock is 100 seconds; a fresh account last requested at 0.
    assert_eq!(
        request_withdrawal(&mut acct, &vault, TRADER, 1, true, 99),
        Err(ErrorCode::WithdrawalTimelockNotExpired)
    );
    request_withdrawal(&mut acct, &vault, TRADER, 1, true, 100).unwrap();
    cancel_withdrawal(&mut acct, &vault, TRADER).unwrap();
    // The clock restarted at 100, so 150 is still locked.
    assert_eq!(
        request_withdrawal(&mut acct, &vault, TRADER, 1, false, 150),
        Err(ErrorCode::WithdrawalTimelockNotExpired)
    );
    request_withdrawal(&mut acct, &vault, TRADER, 7, false, 200).unwrap();
    assert_eq!(acct.pending_usdc_withdrawal, 7);
    assert_eq!(acct.pending_sol_withdrawal, 0);
}

#[test]
fn timelock_past_the_clock_never_unlocks() {
    // A timelock so large that the unlock time cannot be represented keeps
    // every request locked rather than wrapping around.
    let vault = initialize_vault(KEEPER, i64::MAX, 7, 8);
    let mut acct = funded_account();
    acct.last_withdrawal_request = 100;
    assert_eq!(
        request_withdrawal(&mut acct, &vault, TRADER, 1, true, i64::MAX),
        Err(ErrorCode::WithdrawalTimelockNotExpired)
    );
}

#[test]
fn cancel_on_idle_account_fails() {
    let vault = vault_with_keeper();
    let mut acct = funded_account();
    assert_eq!(
        cancel_withdrawal(&mut acct, &vault, TRADER),
        Err(ErrorCode::NoPendingWithdrawal)
    );
    request_withdrawal(&mut acct, &vault, TRADER, 1_000, true, 100).unwrap();
    assert_eq!(
        cancel_withdrawal(&mut acct, &vault, STRANGER),
        Err(ErrorCode::UnauthorizedExecution)
    );
    // A vault authority may cancel on the owner's behalf.
    cancel_withdrawal(&mut acct, &vault, KEEPER).unwrap();
    assert_eq!(acct.pending_sol_withdrawal, 0);
    assert_eq!(acct.pending_usdc_withdrawal, 0);
}

#[test]
fn execute_on_idle_account_fails() {
    let mut vault = vault_with_keeper();
    let mut acct = funded_account();
    let mut pool = initialize_pool(POOL_ADMIN);
    assert_eq!(
        execute_withdrawal(&mut acct, &mut vault, &mut pool, KEEPER, 0, 0, 0, 0, 0, PRICE_100),
        Err(ErrorCode::NoPendingWithdrawal)
    );
}

#[test]
fn fees_move_into_the_vault() {
    let mut vault = vault_with_keeper();
    let mut acct = funded_account();
    process_fees(&mut acct, &mut vault, 1_000, 2_000).unwrap();
    assert_eq!(acct.sol_balance, 2_000_000_000 - 1_000);
    assert_eq!(acct.usdc_balance, 100_000_000 - 2_000);
    assert_eq!(vault.sol_fees_accumulated, 1_000);
    assert_eq!(vault.usdc_fees_accumulated, 2_000);
    // A fee larger than the balance marks the position liquidatable, and
    // nothing moves.
    assert_eq!(
        process_fees(&mut acct, &mut vault, u64::MAX, 0),
        Err(ErrorCode::LiquidatablePosition)
    );
    assert_eq!(vault.sol_fees_accumulated, 1_000);
    let (sol_fees, usdc_fees) = claim_fees(&mut vault, KEEPER).unwrap();
    assert_eq!((sol_fees, usdc_fees), (1_000, 2_000));
    assert_eq!(vault.sol_fees_accumulated, 0);
    assert_eq!(claim_fees(&mut vault, STRANGER), Err(ErrorCode::UnauthorizedExecution));
}

#[test]
fn validate_balances_checks_free_collateral() {
    let mut acct = funded_account();
    acct.pending_sol_withdrawal = 1_500_000_000;
    assert_eq!(validate_balances(&acct, 0, 0), Ok(()));
    // 1 SOL locked leaves only 1 SOL free, under the 1.5 SOL pending.
    assert_eq!(
        validate_balances(&acct, 1_000_000_000, 0),
        Err(ErrorCode::InsufficientWithdrawableMargin)
    );
    // Locking more than the balance is an arithmetic error.
    assert_eq!(
        validate_balances(&acct, u64::MAX, 0),
        Err(ErrorCode::ArithmeticOverflow)
    );
}

#[test]
fn pnl_allocation_is_proportional() {
    // 2 SOL at 100 USD and 100 USDC: 200 + 100 USD, so a 30 USDC profit
    // splits 20 USD to SOL and 10 USD to USDC.
    let alloc = compute_pnl_allocation(2_000_000_000, 100_000_000, PRICE_100, 30_000_000)
        .unwrap();
    assert_eq!(alloc.sol_native, 200_000_000);
    assert_eq!(alloc.usdc_native, 10_000_000);
    // The same split serves losses.
    let alloc = compute_pnl_allocation(2_000_000_000, 100_000_000, PRICE_100, -30_000_000)
        .unwrap();
    assert_eq!(alloc.sol_native, 200_000_000);
    assert_eq!(alloc.usdc_native, 10_000_000);
}

#[test]
fn pnl_allocation_errors() {
    // No value to allocate against.
    assert_eq!(
        compute_pnl_allocation(0, 0, PRICE_100, 5),
        Err(ErrorCode::InsufficientMargin)
    );
    // A non-positive price cannot value the SOL side.
    assert_eq!(
        compute_pnl_allocation(1, 1, 0, 5),
        Err(ErrorCode::ArithmeticOverflow)
    );
    assert_eq!(
        compute_pnl_allocation(1, 1, -3, 5),
        Err(ErrorCode::ArithmeticOverflow)
    );
}

fn settlement_setup() -> (MarginAccount, MarginVault, perp_core::pool_state::PoolState) {
    let mut vault = vault_with_keeper();
    let mut acct = funded_account();
    let mut pool = initialize_pool(POOL_ADMIN);
    // The keeper settles against the pool, so it must be a pool authority.
    pool_add_authority(&mut pool, POOL_ADMIN, KEEPER).unwrap();
    admin_deposit(&mut pool, POOL_ADMIN, AssetKind::Sol, 10_000_000_000, PRICE_100).unwrap();
    admin_deposit(&mut pool, POOL_ADMIN, AssetKind::Usdc, 1_000_000_000, PRICE_100).unwrap();
    request_withdrawal(&mut acct, &mut vault, TRADER, 1_000_000_000, true, 100).unwrap();
    (acct, vault, pool)
}

#[test]
fn execute_withdrawal_with_profit() {
    let (mut acct, mut vault, mut pool) = settlement_setup();
    // 30 USDC profit: 0.2 SOL and 10 USDC come out of the pool into the
    // margin, then the pending 1 SOL is paid out.
    let (paid_sol, paid_usdc) = execute_withdrawal(
        &mut acct,
        &mut vault,
        &mut pool,
        KEEPER,
        30_000_000,
        0,
        0,
        0,
        0,
        PRICE_100,
    )
    .unwrap();
    assert_eq!((paid_sol, paid_usdc), (1_000_000_000, 0));
    assert_eq!(acct.sol_balance, 2_000_000_000 + 200_000_000 - 1_000_000_000);
    assert_eq!(acct.usdc_balance, 100_000_000 + 10_000_000);
    assert_eq!(acct.pending_sol_withdrawal, 0);
    assert_eq!(acct.pending_usdc_withdrawal, 0);
    assert_eq!(pool.sol_deposited, 10_000_000_000 - 200_000_000);
    assert_eq!(pool.usdc_deposited, 1_000_000_000 - 10_000_000);
}

#[test]
fn execute_withdrawal_with_loss_and_fees() {
    let (mut acct, mut vault, mut pool) = settlement_setup();
    // 1000 lamports of SOL fees, then a 30 USDC loss pushed into the pool.
    let (paid_sol, paid_usdc) = execute_withdrawal(
        &mut acct,
        &mut vault,
        &mut pool,
        KEEPER,
        -30_000_000,
        0,
        0,
        1_000,
        0,
        PRICE_100,
    )
    .unwrap();
    assert_eq!((paid_sol, paid_usdc), (1_000_000_000, 0));
    assert_eq!(vault.sol_fees_accumulated, 1_000);
    // The loss is allocated over the post-fee balances, so the SOL slice
    // rounds a shade under 20 USD and the USDC slice picks up the rest.
    assert_eq!(acct.sol_balance, 2_000_000_000 - 1_000 - 199_999_966 - 1_000_000_000);
    assert_eq!(acct.usdc_balance, 100_000_000 - 10_000_003);
    assert_eq!(pool.sol_deposited, 10_000_000_000 + 199_999_966);
    assert_eq!(pool.usdc_deposited, 1_000_000_000 + 10_000_003);
}

#[test]
fn execute_withdrawal_gates() {
    let (mut acct, mut vault, mut pool) = settlement_setup();
    assert_eq!(
        execute_withdrawal(
            &mut acct, &mut vault, &mut pool, STRANGER, 0, 0, 0, 0, 0, PRICE_100
        ),
        Err(ErrorCode::InvalidAuthority)
    );
    // Locked collateral can block the pending withdrawal.
    assert_eq!(
        execute_withdrawal(
            &mut acct,
            &mut vault,
            &mut pool,
            KEEPER,
            0,
            1_500_000_000,
            0,
            0,
            0,
            PRICE_100
        ),
        Err(ErrorCode::InsufficientWithdrawableMargin)
    );
    // Owed fees past the balance mark the position liquidatable.
    assert_eq!(
        execute_withdrawal(
            &mut acct,
            &mut vault,
            &mut pool,
            KEEPER,
            0,
            0,
            0,
            u64::MAX,
            0,
            PRICE_100
        ),
        Err(ErrorCode::LiquidatablePosition)
    );
    // A keeper who is no pool authority cannot move pool funds.
    let mut lone_pool = initialize_pool(POOL_ADMIN);
    admin_deposit(&mut lone_pool, POOL_ADMIN, AssetKind::Sol, 10_000_000_000, PRICE_100).unwrap();
    assert_eq!(
        execute_withdrawal(
            &mut acct,
            &mut vault,
            &mut lone_pool,
            KEEPER,
            30_000_000,
            0,
            0,
            0,
            0,
            PRICE_100
        ),
        Err(ErrorCode::Unauthorized)
    );
    // Nothing moved on any failure.
    assert_eq!(acct.sol_balance, 2_000_000_000);
    assert_eq!(acct.pending_sol_withdrawal, 1_000_000_000);
    assert_eq!(vault.sol_fees_accumulated, 0);
}

#[test]
fn execute_withdrawal_without_pnl() {
    let (mut acct, mut vault, mut pool) = settlement_setup();
    let pool_before_sol = pool.sol_deposited;
    let (paid_sol, paid_usdc) = execute_withdrawal(
        &mut acct,
        &mut vault,
        &mut pool,
        KEEPER,
        0,
        500_000_000,
        0,
        0,
        0,
        PRICE_100,
    )
    .unwrap();
    assert_eq!((paid_sol, paid_usdc), (1_000_000_000, 0));
    assert_eq!(acct.sol_balance, 1_000_000_000);
    // A zero PnL leaves the pool untouched.
    assert_eq!(pool.sol_deposited, pool_before_sol);
}

#[test]
fn liquidation_sweeps_one_asset_into_the_pool() {
    let (mut acct, vault, mut pool) = settlement_setup();
    assert_eq!(
        liquidate_margin_account(&mut acct, &vault, &mut pool, AssetKind::Sol, STRANGER, PRICE_100),
        Err(ErrorCode::UnauthorizedLiquidation)
    );
    let swept =
        liquidate_margin_account(&mut acct, &vault, &mut pool, AssetKind::Sol, KEEPER, PRICE_100)
            .unwrap();
    assert_eq!(swept, 2_000_000_000);
    assert_eq!(acct.sol_balance, 0);
    assert_eq!(acct.usdc_balance, 100_000_000);
    // The pending request is cancelled by force.
    assert_eq!(acct.pending_sol_withdrawal, 0);
    assert_eq!(pool.sol_deposited, 10_000_000_000 + 2_000_000_000);
    // Sweeping an empty side is a successful zero no-op.
    let swept =
        liquidate_margin_account(&mut acct, &vault, &mut pool, AssetKind::Sol, KEEPER, PRICE_100)
            .unwrap();
    assert_eq!(swept, 0);
}

#[test]
fn liquidation_needs_pool_privilege() {
    let mut vault = vault_with_keeper();
    let mut acct = funded_account();
    request_withdrawal(&mut acct, &mut vault, TRADER, 1, true, 100).unwrap();
    // KEEPER is no authority of this pool.
    let mut pool = initialize_pool(POOL_ADMIN);
    assert_eq!(
        liquidate_margin_account(&mut acct, &vault, &mut pool, AssetKind::Sol, KEEPER, PRICE_100),
        Err(ErrorCode::Unauthorized)
    );
    assert_eq!(acct.sol_balance, 2_000_000_000);
    assert_eq!(acct.pending_sol_withdrawal, 1);
}

#[test]
fn margin_authority_set_rules() {
    let mut vault = vault_with_keeper();
    assert_eq!(add_authority(&mut vault, STRANGER, 50), Err(ErrorCode::Unauthorized));
    add_authority(&mut vault, KEEPER, 50).unwrap();
    assert_eq!(add_authority(&mut vault, KEEPER, 50), Err(ErrorCode::AuthorityAlreadyExists));
    remove_authority(&mut vault, KEEPER, 50).unwrap();
    assert_eq!(
        remove_authority(&mut vault, KEEPER, KEEPER),
        Err(ErrorCode::CannotRemoveLastAuthority)
    );
    assert_eq!(
        update_chainlink_addresses(&mut vault, STRANGER, 1, 2),
        Err(ErrorCode::InvalidAuthority)
    );
    update_chainlink_addresses(&mut vault, KEEPER, 21, 22).unwrap();
    assert_eq!(vault.chainlink_program, 21);
    assert_eq!(vault.chainlink_feed, 22);
}

#[test]
fn price_feed_rounds() {
    let mut price_feed = feed::initialize(KEEPER, PRICE_100, 40);
    let round = feed::latest_round_data(&price_feed);
    assert_eq!(round.answer, PRICE_100);
    assert_eq!(round.round_id, 1);
    assert_eq!(
        feed::update_price(&mut price_feed, STRANGER, 1, 50),
        Err(feed::FeedError::Unauthorized)
    );
    feed::update_price(&mut price_feed, KEEPER, 2 * PRICE_100, 50).unwrap();
    let round = feed::latest_round_data(&price_feed);
    assert_eq!(round.answer, 2 * PRICE_100);
    assert_eq!(round.round_id, 2);
    assert_eq!(round.updated_at, 50);
    assert_eq!(round.answered_in_round, 2);
}
