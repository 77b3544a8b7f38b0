use perp_core::asset::AssetKind;
use perp_core::oracle_math::{get_sol_amount_from_usd, get_sol_usd_value};
use perp_core::pool_errors::ErrorCode;
use perp_core::pool_ops::{
    admin_deposit, admin_withdraw, claim_fees, deposit, direct_deposit, withdraw,
};
use perp_core::pool_state::{
    add_authority, close_pool, close_user_state, force_close_user_state, initialize,
    new_user_state, remove_authority, PoolState, UserState,
};

const ADMIN: u64 = 1;
const ALICE: u64 = 10;
const BOB: u64 = 11;

// 100 USD in the oracle's 8-decimal convention.
const PRICE_100: i128 = 10_000_000_000;

fn fresh_pool() -> PoolState {
    initialize(ADMIN)
}

#[test]
fn sol_usd_conversion_exact() {
    // 1 SOL at 100 USD/SOL is 100 USD (8 decimals).
    assert_eq!(get_sol_usd_value(1_000_000_000, PRICE_100), Ok(10_000_000_000));
    // And back.
    assert_eq!(get_sol_amount_from_usd(10_000_000_000, PRICE_100), Ok(1_000_000_000));
    // Rounding is floor: 1 lamport at 100 USD/SOL is 0 whole USD units... 1e0*1e10/1e9 = 10.
    assert_eq!(get_sol_usd_value(1, PRICE_100), Ok(10));
    assert_eq!(get_sol_usd_value(0, PRICE_100), Ok(0));
    // 3 lamports at 33.333333 USD/SOL floors.
    assert_eq!(get_sol_usd_value(3, 3_333_333_333), Ok(9));
}

#[test]
fn sol_usd_conversion_errors() {
    assert_eq!(get_sol_usd_value(5, -1), Err(ErrorCode::MathError));
    assert_eq!(get_sol_amount_from_usd(5, 0), Err(ErrorCode::MathError));
    assert_eq!(get_sol_amount_from_usd(5, -7), Err(ErrorCode::MathError));
    // Result too large for 64 bits.
    assert_eq!(get_sol_amount_from_usd(u64::MAX, 1), Err(ErrorCode::MathError));
}

#[test]
fn first_deposit_sets_the_peg() {
    // Empty pool, first deposit of 1000 USDC: 0.1% fee leaves 999 USDC net,
    // which mints 999 * 10^8 USD-equivalent shares.
    let mut pool = fresh_pool();
    let mut user = new_user_state();
    let minted = deposit(
        &mut pool,
        &mut user,
        ALICE,
        AssetKind::Usdc,
        1_000_000_000,
        0,
        0,
        5,
    )
    .unwrap();
    assert_eq!(minted, 99_900_000_000);
    assert_eq!(pool.usdc_deposited, 999_000_000);
    assert_eq!(pool.accumulated_usdc_fees, 1_000_000);
    assert_eq!(user.owner, ALICE);
    assert_eq!(user.lp_token_balance, 99_900_000_000);
    assert_eq!(user.last_claim_timestamp, 5);
}

#[test]
fn second_deposit_mints_proportionally() {
    let mut pool = fresh_pool();
    let mut alice = new_user_state();
    let first = deposit(
        &mut pool,
        &mut alice,
        ALICE,
        AssetKind::Usdc,
        1_000_000_000,
        0,
        0,
        0,
    )
    .unwrap();
    // Same net deposit against AUM equal to it and supply equal to it mints
    // the same share count: shares = deposit_usd * supply / aum.
    let mut bob = new_user_state();
    let second = deposit(
        &mut pool,
        &mut bob,
        BOB,
        AssetKind::Usdc,
        1_000_000_000,
        0,
        first,
        0,
    )
    .unwrap();
    assert_eq!(second, first);
    assert_eq!(pool.usdc_deposited, 1_998_000_000);
}

#[test]
fn sol_deposit_uses_oracle_price() {
    let mut pool = fresh_pool();
    let mut user = new_user_state();
    // 1 SOL at 100 USD/SOL: fee 0.001 SOL, net 0.999 SOL = 99.9 USD.
    let minted = deposit(
        &mut pool,
        &mut user,
        ALICE,
        AssetKind::Sol,
        1_000_000_000,
        PRICE_100,
        0,
        0,
    )
    .unwrap();
    assert_eq!(minted, 9_990_000_000);
    assert_eq!(pool.sol_deposited, 999_000_000);
    assert_eq!(pool.accumulated_sol_fees, 1_000_000);
    assert_eq!(pool.sol_usd_price, PRICE_100);
}

#[test]
fn round_trip_returns_amount_minus_both_fees() {
    // Deposit 1000 USDC, withdraw all minted shares right back: the payout
    // is amount minus the deposit fee and the withdrawal fee, never more.
    let mut pool = fresh_pool();
    let mut user = new_user_state();
    let minted = deposit(
        &mut pool,
        &mut user,
        ALICE,
        AssetKind::Usdc,
        1_000_000_000,
        0,
        0,
        0,
    )
    .unwrap();
    let paid = withdraw(&mut pool, &mut user, AssetKind::Usdc, minted, 0, minted, 1).unwrap();
    // 1_000_000_000 - 1_000_000 (deposit fee) - 999_000 (withdrawal fee).
    assert_eq!(paid, 998_001_000);
    assert!(paid <= 1_000_000_000 - 1_000_000 - 999_000);
    assert_eq!(pool.usdc_deposited, 0);
    assert_eq!(user.lp_token_balance, 0);
    assert_eq!(pool.accumulated_usdc_fees, 1_000_000 + 999_000);
}

#[test]
fn withdraw_sol_half_of_pool() {
    let mut pool = fresh_pool();
    let mut user = new_user_state();
    let minted = deposit(
        &mut pool,
        &mut user,
        ALICE,
        AssetKind::Sol,
        2_000_000_000,
        PRICE_100,
        0,
        0,
    )
    .unwrap();
    // Withdraw half the shares at the same price: half the net SOL, less
    // the exit fee.
    let half = minted / 2;
    let paid = withdraw(&mut pool, &mut user, AssetKind::Sol, half, PRICE_100, minted, 1).unwrap();
    let gross = 999_000_000; // half of the 1_998_000_000 net reserve
    assert_eq!(paid, gross - gross / 1000);
    assert_eq!(pool.sol_deposited, 1_998_000_000 - gross);
}

#[test]
fn deposit_input_errors() {
    let mut pool = fresh_pool();
    let mut user = new_user_state();
    assert_eq!(
        deposit(&mut pool, &mut user, ALICE, AssetKind::Usdc, 0, 0, 0, 0),
        Err(ErrorCode::InvalidTokenAmount)
    );
    // A negative oracle price cannot value the pool.
    assert_eq!(
        deposit(&mut pool, &mut user, ALICE, AssetKind::Sol, 100, -5, 0, 0),
        Err(ErrorCode::MathError)
    );
    // Failed deposits leave no trace.
    assert_eq!(pool.usdc_deposited, 0);
    assert_eq!(pool.sol_deposited, 0);
    assert_eq!(user.lp_token_balance, 0);
}

#[test]
fn deposit_overflow_is_math_error() {
    let mut pool = fresh_pool();
    let mut user = new_user_state();
    // A USDC reserve too large to scale into 8-decimal USD.
    admin_deposit(&mut pool, ADMIN, AssetKind::Usdc, u64::MAX, 0).unwrap();
    assert_eq!(
        deposit(&mut pool, &mut user, ALICE, AssetKind::Usdc, 1_000, 0, 5, 0),
        Err(ErrorCode::MathError)
    );
}

#[test]
fn withdraw_errors() {
    let mut pool = fresh_pool();
    let mut user = new_user_state();
    let minted = deposit(
        &mut pool,
        &mut user,
        ALICE,
        AssetKind::Usdc,
        1_000_000_000,
        0,
        0,
        0,
    )
    .unwrap();
    assert_eq!(
        withdraw(&mut pool, &mut user, AssetKind::Usdc, 0, 0, minted, 1),
        Err(ErrorCode::InvalidTokenAmount)
    );
    assert_eq!(
        withdraw(&mut pool, &mut user, AssetKind::Usdc, minted + 1, 0, minted, 1),
        Err(ErrorCode::InsufficientLpBalance)
    );
    // Withdrawing the priced asset needs a positive price.
    assert_eq!(
        withdraw(&mut pool, &mut user, AssetKind::Sol, minted, 0, minted, 1),
        Err(ErrorCode::MathError)
    );
    assert_eq!(user.lp_token_balance, minted);
}

#[test]
fn fees_accumulate_and_reset_on_claim() {
    let mut pool = fresh_pool();
    let mut user = new_user_state();
    deposit(&mut pool, &mut user, ALICE, AssetKind::Usdc, 1_000_000_000, 0, 0, 0).unwrap();
    let after_deposit = pool.accumulated_usdc_fees;
    assert_eq!(after_deposit, 1_000_000);
    withdraw(&mut pool, &mut user, AssetKind::Usdc, 10_000_000_000, 0, 99_900_000_000, 1).unwrap();
    // The bucket only ever grows between claims.
    assert!(pool.accumulated_usdc_fees >= after_deposit);
    let (sol_fees, usdc_fees) = claim_fees(&mut pool, ADMIN).unwrap();
    assert_eq!(sol_fees, 0);
    assert_eq!(usdc_fees, pool_fees_before(after_deposit));
    assert_eq!(pool.accumulated_usdc_fees, 0);
    assert_eq!(pool.accumulated_sol_fees, 0);
    // Claiming empty buckets is a successful no-op.
    assert_eq!(claim_fees(&mut pool, ADMIN), Ok((0, 0)));
    assert_eq!(claim_fees(&mut pool, ALICE), Err(ErrorCode::Unauthorized));
}

fn pool_fees_before(deposit_fee: u64) -> u64 {
    // The 10 USDC-share withdrawal above pays out 100_000_000 - 100_000 and
    // leaves a 100_000 exit fee.
    deposit_fee + 100_000
}

#[test]
fn admin_moves_update_reserves() {
    let mut pool = fresh_pool();
    admin_deposit(&mut pool, ADMIN, AssetKind::Sol, 500, PRICE_100).unwrap();
    assert_eq!(pool.sol_deposited, 500);
    assert_eq!(pool.sol_usd_price, PRICE_100);
    admin_withdraw(&mut pool, ADMIN, AssetKind::Sol, 200, PRICE_100).unwrap();
    assert_eq!(pool.sol_deposited, 300);
    // Draining past the reserve is a math error.
    assert_eq!(
        admin_withdraw(&mut pool, ADMIN, AssetKind::Sol, 301, PRICE_100),
        Err(ErrorCode::MathError)
    );
    // Strangers may not move reserves.
    assert_eq!(
        admin_deposit(&mut pool, ALICE, AssetKind::Usdc, 1, 0),
        Err(ErrorCode::Unauthorized)
    );
    assert_eq!(
        admin_withdraw(&mut pool, ALICE, AssetKind::Sol, 1, 0),
        Err(ErrorCode::Unauthorized)
    );
    assert_eq!(
        direct_deposit(&mut pool, ALICE, AssetKind::Usdc, 1, 0),
        Err(ErrorCode::Unauthorized)
    );
    // An authority (not only the admin) may.
    add_authority(&mut pool, ADMIN, BOB).unwrap();
    direct_deposit(&mut pool, BOB, AssetKind::Usdc, 40, 0).unwrap();
    assert_eq!(pool.usdc_deposited, 40);
}

#[test]
fn authority_set_rules() {
    let mut pool = fresh_pool();
    assert_eq!(add_authority(&mut pool, ALICE, BOB), Err(ErrorCode::Unauthorized));
    add_authority(&mut pool, ADMIN, BOB).unwrap();
    assert_eq!(
        add_authority(&mut pool, ADMIN, BOB),
        Err(ErrorCode::AuthorityAlreadyExists)
    );
    // Fill the set to its capacity of ten.
    for id in 0..9u64 {
        add_authority(&mut pool, ADMIN, 100 + id).unwrap();
    }
    assert_eq!(
        add_authority(&mut pool, ADMIN, 999),
        Err(ErrorCode::MaxAuthoritiesReached)
    );
    assert_eq!(
        remove_authority(&mut pool, ADMIN, 999),
        Err(ErrorCode::AuthorityNotFound)
    );
    assert_eq!(remove_authority(&mut pool, ALICE, BOB), Err(ErrorCode::Unauthorized));
    for id in 0..9u64 {
        remove_authority(&mut pool, ADMIN, 100 + id).unwrap();
    }
    // The last authority cannot be removed.
    assert_eq!(
        remove_authority(&mut pool, ADMIN, BOB),
        Err(ErrorCode::CannotRemoveLastAuthority)
    );
}

#[test]
fn close_operations_are_gated() {
    let pool = fresh_pool();
    assert_eq!(close_pool(&pool, ALICE), Err(ErrorCode::Unauthorized));
    assert_eq!(close_pool(&pool, ADMIN), Ok(()));
    let user: UserState = {
        let mut pool2 = fresh_pool();
        let mut u = new_user_state();
        deposit(&mut pool2, &mut u, ALICE, AssetKind::Usdc, 1_000_000, 0, 0, 0).unwrap();
        u
    };
    assert_eq!(close_user_state(&user, &pool, BOB), Err(ErrorCode::Unauthorized));
    assert_eq!(close_user_state(&user, &pool, ALICE), Ok(()));
    assert_eq!(close_user_state(&user, &pool, ADMIN), Ok(()));
    assert_eq!(force_close_user_state(&pool, BOB), Err(ErrorCode::Unauthorized));
    assert_eq!(force_close_user_state(&pool, ADMIN), Ok(()));
}
