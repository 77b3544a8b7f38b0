//! Fixed-point conversions between the oracle-priced asset and USD.
//!
//! SOL amounts carry 9 decimals, USD values carry 8 decimals, and the oracle
//! price carries 8 decimals, so one conversion factor of `10^9` covers both
//! the price decimals (`10^8`) and the 9-to-8 decimal gap (`10`). All
//! intermediate products are widened to 128 bits and every truncation is a
//! floor division, so rounding only ever shaves a sub-unit remainder off the
//! result.

use vstd::prelude::*;

use crate::pool_errors::ErrorCode;

verus! {

/// Conversion factor between a 9-decimal SOL amount times an 8-decimal price
/// and an 8-decimal USD value.
pub const SOL_USD_FACTOR: u128 = 1_000_000_000;

/// USD value (8 decimals) of `sol` native units (9 decimals) at `price`
/// (8 decimals): `sol * price / 10^9`, rounded down.
pub open spec fn sol_to_usd(sol: int, price: int) -> int {
    (sol * price) / 1_000_000_000
}

/// SOL native units (9 decimals) worth `usd` (8 decimals) at `price`
/// (8 decimals): `usd * 10^9 / price`, rounded down.
pub open spec fn usd_to_sol(usd: int, price: int) -> int {
    (usd * 1_000_000_000) / price
}

/// The product of two 64-bit values always fits in 128 bits.
pub proof fn lemma_u64_mul_fits_u128(a: u64, b: u64)
    ensures
        a * b <= u128::MAX,
{
    assert(a * b <= u64::MAX as int * u64::MAX as int) by (nonlinear_arith)
        requires
            0 <= a <= u64::MAX as int,
            0 <= b <= u64::MAX as int,
    ;
}

/// Values a SOL reserve in USD at the given oracle price.
///
/// Succeeds exactly when the price is non-negative and the floored result
/// fits in 64 bits; a negative price or an oversized product is a math error,
/// never a wrapped or truncated value.
pub fn get_sol_usd_value(sol_amount: u64, sol_usd_price: i128) -> (r: Result<
    u64,
    ErrorCode,
>)
    ensures
        r matches Ok(v) ==> v == sol_to_usd(sol_amount as int, sol_usd_price as int),
        r is Ok <==> sol_usd_price >= 0 && sol_to_usd(sol_amount as int, sol_usd_price as int)
            <= u64::MAX,
        r is Err ==> r == Err::<u64, ErrorCode>(ErrorCode::MathError),
{
    if sol_usd_price < 0 {
        return Err(ErrorCode::MathError);
    }
    let price = sol_usd_price as u128;
    match (sol_amount as u128).checked_mul(price) {
        Some(prod) => {
            let q = prod / SOL_USD_FACTOR;
            if q > u64::MAX as u128 {
                Err(ErrorCode::MathError)
            } else {
                Ok(q as u64)
            }
        },
        None => {
            proof {
                assert((sol_amount as int) * (sol_usd_price as int) > u128::MAX as int);
                assert(sol_to_usd(sol_amount as int, sol_usd_price as int) > u64::MAX as int)
                    by (nonlinear_arith)
                    requires
                        (sol_amount as int) * (sol_usd_price as int) > u128::MAX as int,
                ;
            }
            Err(ErrorCode::MathError)
        },
    }
}

/// Converts a USD value back into SOL native units at the given oracle price.
///
/// Succeeds exactly when the price is positive and the floored result fits in
/// 64 bits; a non-positive price or an oversized quotient is a math error.
pub fn get_sol_amount_from_usd(usd_value: u64, sol_usd_price: i128) -> (r: Result<
    u64,
    ErrorCode,
>)
    ensures
        r matches Ok(v) ==> v == usd_to_sol(usd_value as int, sol_usd_price as int),
        r is Ok <==> sol_usd_price > 0 && usd_to_sol(usd_value as int, sol_usd_price as int)
            <= u64::MAX,
        r is Err ==> r == Err::<u64, ErrorCode>(ErrorCode::MathError),
{
    if sol_usd_price <= 0 {
        return Err(ErrorCode::MathError);
    }
    let price = sol_usd_price as u128;
    proof {
        assert((usd_value as int) * 1_000_000_000 <= u64::MAX as int * 1_000_000_000)
            by (nonlinear_arith)
            requires
                usd_value as int <= u64::MAX as int,
        ;
    }
    let prod = (usd_value as u128) * SOL_USD_FACTOR;
    let q = prod / price;
    if q > u64::MAX as u128 {
        Err(ErrorCode::MathError)
    } else {
        Ok(q as u64)
    }
}

} // verus!
