use vstd::prelude::*;

verus! {

/// Error kinds surfaced by every state transition. Each operation is
/// atomic: when one of these comes back, the position, the vault pool and
/// the event log are exactly as they were before the call.
#[derive(Clone, Copy, Debug, PartialEq, Eq, Structural)]
pub enum ErrorCode {
    /// A checked add/sub/mul/div would overflow, underflow or divide by zero.
    MathOverflow,
    /// A risk-increasing operation would leave the health factor below the
    /// configured minimum.
    UnhealthyPosition,
    /// The price feed is absent or reports a non-positive price.
    InvalidOracle,
    /// A withdrawal or liquidation would remove more collateral than the
    /// position (or the pooled vault) holds.
    InsufficientCollateral,
    /// Liquidation was attempted against a position whose current health
    /// factor is at or above the configured minimum.
    PositionNotLiquidatable,
    /// Every operation needs a positive amount; zero is rejected as a no-op.
    InvalidAmount,
}

} // verus!
