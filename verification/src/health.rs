use vstd::prelude::*;

use crate::errors::ErrorCode;
use crate::state::{State, UserAccount};

verus! {

/// The single fixed-point precision constant, applied uniformly in all
/// three of its roles:
/// - oracle prices are fixed-point with base `SCALE` (a price of `SCALE`
///   means one accounting unit per unit of collateral),
/// - health-factor numerators are multiplied by `SCALE` before the
///   division by `total_debt * liquidation_threshold`,
/// - the liquidation bonus is in basis points of the same base
///   (`SCALE` = 100%).
pub const SCALE: u64 = 10000;

/// Value of `collateral` units at `price`, normalized from the oracle's
/// fixed-point base back into accounting units.
pub open spec fn spec_collateral_value(collateral: int, price: int) -> int {
    (collateral * price) / (SCALE as int)
}

/// The one checked step of the collateral valuation that can fail.
pub open spec fn collateral_value_fits(collateral: int, price: int) -> bool {
    collateral * price <= u64::MAX
}

/// All checked steps of the health-factor computation succeed: the raw
/// collateral valuation fits, the scaled numerator fits, and the
/// denominator `total_debt * liquidation_threshold` fits and is positive.
/// A position with no debt is always defined (and maximally safe).
pub open spec fn health_factor_defined(
    collateral: int,
    total_debt: int,
    threshold: int,
    price: int,
) -> bool {
    total_debt == 0 || {
        &&& collateral * price <= u64::MAX
        &&& spec_collateral_value(collateral, price) * (SCALE as int) <= u64::MAX
        &&& total_debt * threshold <= u64::MAX
        &&& total_debt * threshold > 0
    }
}

/// The health factor: `u64::MAX` for a debt-free position, otherwise
/// `collateral_value * SCALE / (total_debt * liquidation_threshold)`.
pub open spec fn spec_health_factor(
    collateral: int,
    total_debt: int,
    threshold: int,
    price: int,
) -> int {
    if total_debt == 0 {
        u64::MAX as int
    } else {
        (spec_collateral_value(collateral, price) * (SCALE as int)) / (total_debt * threshold)
    }
}

/// Collateral valuation in accounting units: `collateral_amount * price`,
/// normalized by `SCALE`, checked against overflow.
pub fn get_collateral_value(collateral_amount: u64, price: u64) -> (r: Result<u64, ErrorCode>)
    ensures
        collateral_value_fits(collateral_amount as int, price as int) ==> r == Ok::<u64,
            ErrorCode,
        >((spec_collateral_value(collateral_amount as int, price as int)) as u64),
        !collateral_value_fits(collateral_amount as int, price as int) ==> r == Err::<u64,
            ErrorCode,
        >(ErrorCode::MathOverflow),
{
    match collateral_amount.checked_mul(price) {
        Some(raw) => Ok(raw / SCALE),
        None => Err(ErrorCode::MathOverflow),
    }
}

/// The health factor of a position holding `collateral_amount` against
/// `total_debt` (any pending debt already added in), at `price`.
///
/// A position with zero debt has the maximum representable health factor,
/// whatever its collateral or the price. Every multiplication and division
/// is checked; any overflow or a zero divisor (a zero
/// `liquidation_threshold`) yields `MathOverflow` instead of a value.
pub fn health_factor(
    collateral_amount: u64,
    total_debt: u64,
    liquidation_threshold: u64,
    price: u64,
) -> (r: Result<u64, ErrorCode>)
    ensures
        total_debt == 0 ==> r == Ok::<u64, ErrorCode>(u64::MAX),
        health_factor_defined(
            collateral_amount as int,
            total_debt as int,
            liquidation_threshold as int,
            price as int,
        ) ==> r == Ok::<u64, ErrorCode>(
            spec_health_factor(
                collateral_amount as int,
                total_debt as int,
                liquidation_threshold as int,
                price as int,
            ) as u64,
        ),
        !health_factor_defined(
            collateral_amount as int,
            total_debt as int,
            liquidation_threshold as int,
            price as int,
        ) ==> r == Err::<u64, ErrorCode>(ErrorCode::MathOverflow),
{
    if total_debt == 0 {
        return Ok(u64::MAX);
    }
    let collateral_value = match get_collateral_value(collateral_amount, price) {
        Ok(v) => v,
        Err(e) => return Err(e),
    };
    let denominator = match total_debt.checked_mul(liquidation_threshold) {
        Some(d) => d,
        None => return Err(ErrorCode::MathOverflow),
    };
    if denominator == 0 {
        return Err(ErrorCode::MathOverflow);
    }
    let numerator = match collateral_value.checked_mul(SCALE) {
        Some(n) => n,
        None => return Err(ErrorCode::MathOverflow),
    };
    Ok(numerator / denominator)
}

/// Health factor of `user_account` with `new_debt` pending on top of its
/// current debt, under the risk parameters of `state`. The pending debt is
/// added with a checked add; `MathOverflow` if the total does not fit.
pub fn calculate_health_factor(
    user_account: &UserAccount,
    state: &State,
    new_debt: u64,
    price: u64,
) -> (r: Result<u64, ErrorCode>)
    ensures
        user_account.debt_amount + new_debt > u64::MAX ==> r == Err::<u64, ErrorCode>(
            ErrorCode::MathOverflow,
        ),
        user_account.debt_amount + new_debt <= u64::MAX ==> {
            let td = user_account.debt_amount + new_debt;
            &&& health_factor_defined(
                user_account.collateral_amount as int,
                td,
                state.liquidation_threshold as int,
                price as int,
            ) ==> r == Ok::<u64, ErrorCode>(
                spec_health_factor(
                    user_account.collateral_amount as int,
                    td,
                    state.liquidation_threshold as int,
                    price as int,
                ) as u64,
            )
            &&& !health_factor_defined(
                user_account.collateral_amount as int,
                td,
                state.liquidation_threshold as int,
                price as int,
            ) ==> r == Err::<u64, ErrorCode>(ErrorCode::MathOverflow)
        },
{
    let total_debt = match user_account.debt_amount.checked_add(new_debt) {
        Some(t) => t,
        None => return Err(ErrorCode::MathOverflow),
    };
    health_factor(user_account.collateral_amount, total_debt, state.liquidation_threshold, price)
}

/// Validation of a raw oracle reading, the one decision the price-feed
/// adapter makes: `None` (feed absent, stale or malformed) and non-positive
/// prices are rejected, a positive price is taken as-is.
pub fn get_sol_price(raw_price: Option<i64>) -> (r: Result<u64, ErrorCode>)
    ensures
        raw_price matches Some(p) ==> {
            &&& p > 0 ==> r == Ok::<u64, ErrorCode>(p as u64)
            &&& p <= 0 ==> r == Err::<u64, ErrorCode>(ErrorCode::InvalidOracle)
        },
        raw_price is None ==> r == Err::<u64, ErrorCode>(ErrorCode::InvalidOracle),
{
    match raw_price {
        Some(p) => {
            if p > 0 {
                Ok(p as u64)
            } else {
                Err(ErrorCode::InvalidOracle)
            }
        },
        None => Err(ErrorCode::InvalidOracle),
    }
}

} // verus!
