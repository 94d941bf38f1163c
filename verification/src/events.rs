use vstd::prelude::*;

use crate::state::AccountId;

verus! {

/// Record of a successful deposit.
#[derive(Clone, Copy, Debug, PartialEq)]
pub struct CollateralDeposited {
    pub user: AccountId,
    pub amount: u64,
}

/// Record of a successful mint.
#[derive(Clone, Copy, Debug, PartialEq)]
pub struct StablecoinMinted {
    pub user: AccountId,
    pub amount: u64,
}

/// Record of a successful repayment.
#[derive(Clone, Copy, Debug, PartialEq)]
pub struct DebtRepaid {
    pub user: AccountId,
    pub amount: u64,
}

/// Record of a successful withdrawal.
#[derive(Clone, Copy, Debug, PartialEq)]
pub struct CollateralWithdrawn {
    pub user: AccountId,
    pub amount: u64,
}

/// Record of a successful liquidation: who was liquidated, by whom, how
/// much debt was repaid and how much collateral was seized in exchange.
#[derive(Clone, Copy, Debug, PartialEq)]
pub struct PositionLiquidated {
    pub user: AccountId,
    pub liquidator: AccountId,
    pub repaid_amount: u64,
    pub seized_collateral: u64,
}

/// One immutable event per successful state transition.
#[derive(Clone, Copy, Debug, PartialEq)]
pub enum Event {
    Deposited(CollateralDeposited),
    Minted(StablecoinMinted),
    Repaid(DebtRepaid),
    Withdrawn(CollateralWithdrawn),
    Liquidated(PositionLiquidated),
}

/// Write-only log of event records, appended to exactly once by every
/// successful transition and left untouched by a failed one.
#[derive(Debug)]
pub struct EventLog {
    pub events: Vec<Event>,
}

impl EventLog {
    pub fn new() -> (r: EventLog)
        ensures
            r.events@.len() == 0,
    {
        EventLog { events: Vec::new() }
    }

    pub fn append(&mut self, event: Event)
        ensures
            final(self).events@ == old(self).events@.push(event),
    {
        self.events.push(event);
    }

    pub fn len(&self) -> (n: usize)
        ensures
            n == self.events@.len(),
    {
        self.events.len()
    }
}

} // verus!
