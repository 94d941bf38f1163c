use vstd::prelude::*;

use crate::errors::ErrorCode;
use crate::events::{
    CollateralDeposited, CollateralWithdrawn, DebtRepaid, Event, EventLog, PositionLiquidated,
    StablecoinMinted,
};
use crate::health::{
    health_factor, health_factor_defined, spec_health_factor, SCALE,
};
use crate::state::{AccountId, State, UserAccount, VaultPool};

verus! {

/// A deposit succeeds exactly when the amount is positive and neither the
/// position's collateral nor the pooled balance overflows.
pub open spec fn deposit_ok(collateral: int, vault: int, amount: int) -> bool {
    &&& amount > 0
    &&& collateral + amount <= u64::MAX
    &&& vault + amount <= u64::MAX
}

/// Create the global risk-parameter record, bound to its external
/// collaborators. Parameters are set exactly once; a zero
/// `liquidation_threshold` is refused up front since every downstream
/// health-factor division would reject it anyway.
pub fn initialize(
    liquidation_threshold: u64,
    min_health_factor: u64,
    liquidation_bonus: u64,
    oracle: AccountId,
    stablecoin_mint: AccountId,
    vault: AccountId,
    bump: u8,
) -> (r: State)
    requires
        liquidation_threshold > 0,
    ensures
        r == (State {
            liquidation_threshold,
            min_health_factor,
            liquidation_bonus,
            oracle,
            stablecoin_mint,
            vault,
            bump,
        }),
        r.wf(),
{
    State {
        liquidation_threshold,
        min_health_factor,
        liquidation_bonus,
        oracle,
        stablecoin_mint,
        vault,
        bump,
    }
}

/// Deposit `amount` units of collateral into `user_account`, mirroring the
/// movement in the pooled vault balance and appending one event record.
///
/// Conservation: on success the position's collateral and the vault pool
/// both grow by exactly `amount` and the debt is untouched; on any error
/// nothing changes.
pub fn deposit_collateral(
    user_account: &mut UserAccount,
    vault: &mut VaultPool,
    log: &mut EventLog,
    user: AccountId,
    amount: u64,
) -> (r: Result<CollateralDeposited, ErrorCode>)
    ensures
        deposit_ok(
            old(user_account).collateral_amount as int,
            old(vault).balance as int,
            amount as int,
        ) ==> {
            &&& r == Ok::<CollateralDeposited, ErrorCode>(
                CollateralDeposited { user, amount },
            )
            &&& final(user_account).collateral_amount == old(user_account).collateral_amount
                + amount
            &&& final(user_account).debt_amount == old(user_account).debt_amount
            &&& final(vault).balance == old(vault).balance + amount
            &&& final(log).events@ == old(log).events@.push(
                Event::Deposited(CollateralDeposited { user, amount }),
            )
        },
        !deposit_ok(
            old(user_account).collateral_amount as int,
            old(vault).balance as int,
            amount as int,
        ) ==> {
            &&& *final(user_account) == *old(user_account)
            &&& *final(vault) == *old(vault)
            &&& final(log).events@ == old(log).events@
            &&& amount == 0 ==> r == Err::<CollateralDeposited, ErrorCode>(
                ErrorCode::InvalidAmount,
            )
            &&& amount > 0 ==> r == Err::<CollateralDeposited, ErrorCode>(
                ErrorCode::MathOverflow,
            )
        },
{
    if amount == 0 {
        return Err(ErrorCode::InvalidAmount);
    }
    let new_collateral = match user_account.collateral_amount.checked_add(amount) {
        Some(c) => c,
        None => return Err(ErrorCode::MathOverflow),
    };
    let new_balance = match vault.balance.checked_add(amount) {
        Some(b) => b,
        None => return Err(ErrorCode::MathOverflow),
    };
    user_account.collateral_amount = new_collateral;
    vault.balance = new_balance;
    let record = CollateralDeposited { user, amount };
    log.append(Event::Deposited(record));
    Ok(record)
}

/// A mint succeeds exactly when the amount is positive, the grown debt
/// fits, and the health factor projected with the grown debt is defined
/// and at least `min_hf`.
pub open spec fn mint_ok(
    collateral: int,
    debt: int,
    amount: int,
    threshold: int,
    min_hf: int,
    price: int,
) -> bool {
    &&& amount > 0
    &&& debt + amount <= u64::MAX
    &&& health_factor_defined(collateral, debt + amount, threshold, price)
    &&& spec_health_factor(collateral, debt + amount, threshold, price) >= min_hf
}

/// Mint `amount` units of synthetic debt against `user_account`. The
/// health factor is re-evaluated against the projected post-transition
/// debt; a projection below `state.min_health_factor` is rejected with
/// `UnhealthyPosition` and the position stays untouched. The issuance of
/// the tokens themselves is the caller's delegated step, taken only after
/// this returns `Ok`.
pub fn mint_stablecoin(
    user_account: &mut UserAccount,
    state: &State,
    log: &mut EventLog,
    user: AccountId,
    amount: u64,
    price: u64,
) -> (r: Result<StablecoinMinted, ErrorCode>)
    ensures
        mint_ok(
            old(user_account).collateral_amount as int,
            old(user_account).debt_amount as int,
            amount as int,
            state.liquidation_threshold as int,
            state.min_health_factor as int,
            price as int,
        ) ==> {
            &&& r == Ok::<StablecoinMinted, ErrorCode>(StablecoinMinted { user, amount })
            &&& final(user_account).debt_amount == old(user_account).debt_amount + amount
            &&& final(user_account).collateral_amount == old(user_account).collateral_amount
            &&& final(log).events@ == old(log).events@.push(
                Event::Minted(StablecoinMinted { user, amount }),
            )
        },
        !mint_ok(
            old(user_account).collateral_amount as int,
            old(user_account).debt_amount as int,
            amount as int,
            state.liquidation_threshold as int,
            state.min_health_factor as int,
            price as int,
        ) ==> {
            let collateral = old(user_account).collateral_amount as int;
            let debt = old(user_account).debt_amount as int;
            let threshold = state.liquidation_threshold as int;
            &&& *final(user_account) == *old(user_account)
            &&& final(log).events@ == old(log).events@
            &&& amount == 0 ==> r == Err::<StablecoinMinted, ErrorCode>(ErrorCode::InvalidAmount)
            &&& amount > 0 && (debt + amount > u64::MAX || !health_factor_defined(
                collateral,
                debt + amount,
                threshold,
                price as int,
            )) ==> r == Err::<StablecoinMinted, ErrorCode>(ErrorCode::MathOverflow)
            &&& amount > 0 && debt + amount <= u64::MAX && health_factor_defined(
                collateral,
                debt + amount,
                threshold,
                price as int,
            ) && spec_health_factor(collateral, debt + amount, threshold, price as int)
                < state.min_health_factor ==> r == Err::<StablecoinMinted, ErrorCode>(
                ErrorCode::UnhealthyPosition,
            )
        },
{
    if amount == 0 {
        return Err(ErrorCode::InvalidAmount);
    }
    let total_debt = match user_account.debt_amount.checked_add(amount) {
        Some(t) => t,
        None => return Err(ErrorCode::MathOverflow),
    };
    let hf = match health_factor(
        user_account.collateral_amount,
        total_debt,
        state.liquidation_threshold,
        price,
    ) {
        Ok(h) => h,
        Err(e) => return Err(e),
    };
    if hf < state.min_health_factor {
        return Err(ErrorCode::UnhealthyPosition);
    }
    user_account.debt_amount = total_debt;
    let record = StablecoinMinted { user, amount };
    log.append(Event::Minted(record));
    Ok(record)
}

/// A repayment succeeds exactly when the amount is positive and no larger
/// than the outstanding debt.
pub open spec fn repay_ok(debt: int, amount: int) -> bool {
    &&& amount > 0
    &&& amount <= debt
}

/// Repay `amount` units of outstanding debt. Repaying more than is owed
/// underflows and is rejected with `MathOverflow`; in particular, once the
/// debt has been repaid in full, any further positive repayment fails and
/// a zero repayment is rejected as a no-op. The burn of the repaid tokens
/// is the caller's delegated step, taken only after this returns `Ok`.
pub fn repay(
    user_account: &mut UserAccount,
    log: &mut EventLog,
    user: AccountId,
    amount: u64,
) -> (r: Result<DebtRepaid, ErrorCode>)
    ensures
        repay_ok(old(user_account).debt_amount as int, amount as int) ==> {
            &&& r == Ok::<DebtRepaid, ErrorCode>(DebtRepaid { user, amount })
            &&& final(user_account).debt_amount == old(user_account).debt_amount - amount
            &&& final(user_account).collateral_amount == old(user_account).collateral_amount
            &&& final(log).events@ == old(log).events@.push(
                Event::Repaid(DebtRepaid { user, amount }),
            )
        },
        !repay_ok(old(user_account).debt_amount as int, amount as int) ==> {
            &&& *final(user_account) == *old(user_account)
            &&& final(log).events@ == old(log).events@
            &&& amount == 0 ==> r == Err::<DebtRepaid, ErrorCode>(ErrorCode::InvalidAmount)
            &&& amount > old(user_account).debt_amount ==> r == Err::<DebtRepaid, ErrorCode>(
                ErrorCode::MathOverflow,
            )
        },
{
    if amount == 0 {
        return Err(ErrorCode::InvalidAmount);
    }
    let new_debt = match user_account.debt_amount.checked_sub(amount) {
        Some(d) => d,
        None => return Err(ErrorCode::MathOverflow),
    };
    user_account.debt_amount = new_debt;
    let record = DebtRepaid { user, amount };
    log.append(Event::Repaid(record));
    Ok(record)
}

/// A withdrawal succeeds exactly when the amount is positive, covered by
/// both the position's collateral and the pooled balance, and the health
/// factor recomputed with the shrunken collateral is defined and at least
/// `min_hf`.
pub open spec fn withdraw_ok(
    collateral: int,
    debt: int,
    vault: int,
    amount: int,
    threshold: int,
    min_hf: int,
    price: int,
) -> bool {
    &&& amount > 0
    &&& amount <= collateral
    &&& health_factor_defined(collateral - amount, debt, threshold, price)
    &&& spec_health_factor(collateral - amount, debt, threshold, price) >= min_hf
    &&& amount <= vault
}

/// Withdraw `amount` units of collateral, mirroring the movement in the
/// pooled vault balance. The health factor is re-evaluated against the
/// projected post-transition collateral; a projection below
/// `state.min_health_factor` is rejected with `UnhealthyPosition`. The
/// transfer back to the user is the caller's delegated step, taken only
/// after this returns `Ok`.
pub fn withdraw_collateral(
    user_account: &mut UserAccount,
    vault: &mut VaultPool,
    state: &State,
    log: &mut EventLog,
    user: AccountId,
    amount: u64,
    price: u64,
) -> (r: Result<CollateralWithdrawn, ErrorCode>)
    ensures
        withdraw_ok(
            old(user_account).collateral_amount as int,
            old(user_account).debt_amount as int,
            old(vault).balance as int,
            amount as int,
            state.liquidation_threshold as int,
            state.min_health_factor as int,
            price as int,
        ) ==> {
            &&& r == Ok::<CollateralWithdrawn, ErrorCode>(CollateralWithdrawn { user, amount })
            &&& final(user_account).collateral_amount == old(user_account).collateral_amount
                - amount
            &&& final(user_account).debt_amount == old(user_account).debt_amount
            &&& final(vault).balance == old(vault).balance - amount
            &&& final(log).events@ == old(log).events@.push(
                Event::Withdrawn(CollateralWithdrawn { user, amount }),
            )
        },
        !withdraw_ok(
            old(user_account).collateral_amount as int,
            old(user_account).debt_amount as int,
            old(vault).balance as int,
            amount as int,
            state.liquidation_threshold as int,
            state.min_health_factor as int,
            price as int,
        ) ==> {
            let collateral = old(user_account).collateral_amount as int;
            let debt = old(user_account).debt_amount as int;
            let threshold = state.liquidation_threshold as int;
            let defined = health_factor_defined(
                collateral - amount,
                debt,
                threshold,
                price as int,
            );
            let projected = spec_health_factor(collateral - amount, debt, threshold, price as int);
            &&& *final(user_account) == *old(user_account)
            &&& *final(vault) == *old(vault)
            &&& final(log).events@ == old(log).events@
            &&& amount == 0 ==> r == Err::<CollateralWithdrawn, ErrorCode>(
                ErrorCode::InvalidAmount,
            )
            &&& amount > 0 && amount > collateral ==> r == Err::<CollateralWithdrawn, ErrorCode>(
                ErrorCode::InsufficientCollateral,
            )
            &&& amount > 0 && amount <= collateral && !defined ==> r == Err::<
                CollateralWithdrawn,
                ErrorCode,
            >(ErrorCode::MathOverflow)
            &&& amount > 0 && amount <= collateral && defined && projected
                < state.min_health_factor ==> r == Err::<CollateralWithdrawn, ErrorCode>(
                ErrorCode::UnhealthyPosition,
            )
            &&& amount > 0 && amount <= collateral && defined && projected
                >= state.min_health_factor && amount > old(vault).balance ==> r == Err::<
                CollateralWithdrawn,
                ErrorCode,
            >(ErrorCode::InsufficientCollateral)
        },
{
    if amount == 0 {
        return Err(ErrorCode::InvalidAmount);
    }
    let new_collateral = match user_account.collateral_amount.checked_sub(amount) {
        Some(c) => c,
        None => return Err(ErrorCode::InsufficientCollateral),
    };
    let hf = match health_factor(
        new_collateral,
        user_account.debt_amount,
        state.liquidation_threshold,
        price,
    ) {
        Ok(h) => h,
        Err(e) => return Err(e),
    };
    if hf < state.min_health_factor {
        return Err(ErrorCode::UnhealthyPosition);
    }
    let new_balance = match vault.balance.checked_sub(amount) {
        Some(b) => b,
        None => return Err(ErrorCode::InsufficientCollateral),
    };
    user_account.collateral_amount = new_collateral;
    vault.balance = new_balance;
    let record = CollateralWithdrawn { user, amount };
    log.append(Event::Withdrawn(record));
    Ok(record)
}

/// Every checked step of the seizure computation succeeds: the scaled
/// repayment fits, the price is non-zero, and the bonus-adjusted product
/// fits.
pub open spec fn seizure_defined(repay_amount: int, price: int, bonus: int) -> bool {
    &&& repay_amount * (SCALE as int) <= u64::MAX
    &&& price > 0
    &&& ((repay_amount * (SCALE as int)) / price) * bonus <= u64::MAX
}

/// Collateral seized for repaying `repay_amount` of a liquidated
/// position's debt at `price`: the repayment converted into collateral
/// units, times the liquidation bonus in basis points.
pub open spec fn spec_seized(repay_amount: int, price: int, bonus: int) -> int {
    (((repay_amount * (SCALE as int)) / price) * bonus) / (SCALE as int)
}

/// A liquidation succeeds exactly when the repayment is positive, the
/// position's current health factor is defined and below `min_hf`, the
/// seizure computation is defined, the repayment is covered by the debt,
/// and the seized collateral is covered by both the position and the pool.
pub open spec fn liquidate_ok(
    collateral: int,
    debt: int,
    vault: int,
    repay_amount: int,
    threshold: int,
    min_hf: int,
    bonus: int,
    price: int,
) -> bool {
    &&& repay_amount > 0
    &&& health_factor_defined(collateral, debt, threshold, price)
    &&& spec_health_factor(collateral, debt, threshold, price) < min_hf
    &&& seizure_defined(repay_amount, price, bonus)
    &&& repay_amount <= debt
    &&& spec_seized(repay_amount, price, bonus) <= collateral
    &&& spec_seized(repay_amount, price, bonus) <= vault
}

/// Liquidate an unsafe position: repay `repay_amount` of its debt in
/// exchange for a bonus-discounted slice of its collateral.
///
/// The trigger is the position's *current* health factor, independent of
/// the repay amount: a position at or above `state.min_health_factor` is
/// not liquidatable. The seizure never exceeds what the position holds —
/// if the computed slice would, the whole operation fails with
/// `InsufficientCollateral` rather than seizing a truncated amount. The
/// burn of the repaid tokens and the transfer of the seized collateral are
/// the caller's delegated steps, taken only after this returns `Ok`.
pub fn liquidate(
    user_account: &mut UserAccount,
    vault: &mut VaultPool,
    state: &State,
    log: &mut EventLog,
    user: AccountId,
    liquidator: AccountId,
    repay_amount: u64,
    price: u64,
) -> (r: Result<PositionLiquidated, ErrorCode>)
    ensures
        liquidate_ok(
            old(user_account).collateral_amount as int,
            old(user_account).debt_amount as int,
            old(vault).balance as int,
            repay_amount as int,
            state.liquidation_threshold as int,
            state.min_health_factor as int,
            state.liquidation_bonus as int,
            price as int,
        ) ==> {
            let seized = spec_seized(
                repay_amount as int,
                price as int,
                state.liquidation_bonus as int,
            );
            &&& r == Ok::<PositionLiquidated, ErrorCode>(
                PositionLiquidated {
                    user,
                    liquidator,
                    repaid_amount: repay_amount,
                    seized_collateral: seized as u64,
                },
            )
            &&& seized <= old(user_account).collateral_amount
            &&& final(user_account).debt_amount == old(user_account).debt_amount - repay_amount
            &&& final(user_account).collateral_amount == old(user_account).collateral_amount
                - seized
            &&& final(vault).balance == old(vault).balance - seized
            &&& final(log).events@ == old(log).events@.push(
                Event::Liquidated(
                    PositionLiquidated {
                        user,
                        liquidator,
                        repaid_amount: repay_amount,
                        seized_collateral: seized as u64,
                    },
                ),
            )
        },
        !liquidate_ok(
            old(user_account).collateral_amount as int,
            old(user_account).debt_amount as int,
            old(vault).balance as int,
            repay_amount as int,
            state.liquidation_threshold as int,
            state.min_health_factor as int,
            state.liquidation_bonus as int,
            price as int,
        ) ==> {
            let collateral = old(user_account).collateral_amount as int;
            let debt = old(user_account).debt_amount as int;
            let threshold = state.liquidation_threshold as int;
            let bonus = state.liquidation_bonus as int;
            let defined = health_factor_defined(collateral, debt, threshold, price as int);
            let current = spec_health_factor(collateral, debt, threshold, price as int);
            let seized = spec_seized(repay_amount as int, price as int, bonus);
            &&& *final(user_account) == *old(user_account)
            &&& *final(vault) == *old(vault)
            &&& final(log).events@ == old(log).events@
            &&& repay_amount == 0 ==> r == Err::<PositionLiquidated, ErrorCode>(
                ErrorCode::InvalidAmount,
            )
            &&& repay_amount > 0 && !defined ==> r == Err::<PositionLiquidated, ErrorCode>(
                ErrorCode::MathOverflow,
            )
            &&& repay_amount > 0 && defined && current >= state.min_health_factor ==> r == Err::<
                PositionLiquidated,
                ErrorCode,
            >(ErrorCode::PositionNotLiquidatable)
            &&& repay_amount > 0 && defined && current < state.min_health_factor
                && !seizure_defined(repay_amount as int, price as int, bonus) ==> r == Err::<
                PositionLiquidated,
                ErrorCode,
            >(ErrorCode::MathOverflow)
            &&& repay_amount > 0 && defined && current < state.min_health_factor
                && seizure_defined(repay_amount as int, price as int, bonus) && repay_amount > debt
                ==> r == Err::<PositionLiquidated, ErrorCode>(ErrorCode::MathOverflow)
            &&& repay_amount > 0 && defined && current < state.min_health_factor
                && seizure_defined(repay_amount as int, price as int, bonus) && repay_amount
                <= debt && seized > collateral ==> r == Err::<PositionLiquidated, ErrorCode>(
                ErrorCode::InsufficientCollateral,
            )
            &&& repay_amount > 0 && defined && current < state.min_health_factor
                && seizure_defined(repay_amount as int, price as int, bonus) && repay_amount
                <= debt && seized <= collateral && seized > old(vault).balance ==> r == Err::<
                PositionLiquidated,
                ErrorCode,
            >(ErrorCode::InsufficientCollateral)
        },
{
    if repay_amount == 0 {
        return Err(ErrorCode::InvalidAmount);
    }
    let hf = match health_factor(
        user_account.collateral_amount,
        user_account.debt_amount,
        state.liquidation_threshold,
        price,
    ) {
        Ok(h) => h,
        Err(e) => return Err(e),
    };
    if hf >= state.min_health_factor {
        return Err(ErrorCode::PositionNotLiquidatable);
    }
    let scaled_repay = match repay_amount.checked_mul(SCALE) {
        Some(v) => v,
        None => return Err(ErrorCode::MathOverflow),
    };
    if price == 0 {
        return Err(ErrorCode::MathOverflow);
    }
    let repay_in_collateral = scaled_repay / price;
    let with_bonus = match repay_in_collateral.checked_mul(state.liquidation_bonus) {
        Some(v) => v,
        None => return Err(ErrorCode::MathOverflow),
    };
    let collateral_to_seize = with_bonus / SCALE;
    let new_debt = match user_account.debt_amount.checked_sub(repay_amount) {
        Some(d) => d,
        None => return Err(ErrorCode::MathOverflow),
    };
    let new_collateral = match user_account.collateral_amount.checked_sub(collateral_to_seize) {
        Some(c) => c,
        None => return Err(ErrorCode::InsufficientCollateral),
    };
    let new_balance = match vault.balance.checked_sub(collateral_to_seize) {
        Some(b) => b,
        None => return Err(ErrorCode::InsufficientCollateral),
    };
    user_account.debt_amount = new_debt;
    user_account.collateral_amount = new_collateral;
    vault.balance = new_balance;
    let record = PositionLiquidated {
        user,
        liquidator,
        repaid_amount: repay_amount,
        seized_collateral: collateral_to_seize,
    };
    log.append(Event::Liquidated(record));
    Ok(record)
}

/// Law: a position that is healthy at its original collateral can take a
/// deposit of `amount` and give it straight back. With no intervening
/// mint, depositing `amount` and then withdrawing `amount` both succeed
/// and leave the collateral exactly where it started — the deposit meets
/// `deposit_ok`, the post-deposit state meets `withdraw_ok` for the same
/// amount, and the withdrawal's result restores the original collateral
/// and pooled balance.
pub proof fn lemma_deposit_withdraw_round_trip(
    collateral: u64,
    debt: u64,
    vault: u64,
    amount: u64,
    threshold: u64,
    min_health_factor: u64,
    price: u64,
)
    requires
        amount > 0,
        collateral + amount <= u64::MAX,
        vault + amount <= u64::MAX,
        health_factor_defined(collateral as int, debt as int, threshold as int, price as int),
        spec_health_factor(collateral as int, debt as int, threshold as int, price as int)
            >= min_health_factor,
    ensures
        deposit_ok(collateral as int, vault as int, amount as int),
        withdraw_ok(
            collateral + amount,
            debt as int,
            vault + amount,
            amount as int,
            threshold as int,
            min_health_factor as int,
            price as int,
        ),
        collateral + amount - amount == collateral,
        vault + amount - amount == vault,
{
}

} // verus!
