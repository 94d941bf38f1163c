//! Accounting core of a collateral-backed stablecoin.
//!
//! Users deposit a base collateral asset, mint a pegged synthetic token
//! against it, and every open position must stay solvent according to a
//! price-derived health factor. The modules here hold the authoritative
//! per-user `(collateral, debt)` state, the health-factor formula, the five
//! state transitions (deposit, mint, repay, withdraw, liquidate) with their
//! solvency checks, the pooled-vault bookkeeping, and the event records
//! emitted on every successful transition.
//!
//! Asset custody transfers, token issuance/burn, and the price feed itself
//! are external collaborators: the core only decides amounts, consumes the
//! current price as a plain value, and fails closed when it is absent or
//! invalid.

pub mod errors;
pub mod state;
pub mod health;
pub mod events;
pub mod ledger;
