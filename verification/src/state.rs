use vstd::prelude::*;

verus! {

/// Identifier of an account or external collaborator: 32 raw bytes, carried
/// through into event records and never interpreted by the core.
#[derive(Clone, Copy, Debug, PartialEq, Eq)]
pub struct AccountId {
    pub bytes: [u8; 32],
}

impl AccountId {
    pub fn new(bytes: [u8; 32]) -> (r: AccountId)
        ensures
            r.bytes == bytes,
    {
        AccountId { bytes }
    }
}

/// Global risk parameters together with the identifiers of the external
/// collaborators this instance is bound to. Set once at initialization and
/// immutable thereafter; every transition takes it by shared reference.
#[derive(Clone, Copy, Debug)]
pub struct State {
    /// Divisor applied to debt in the health-factor formula; higher means
    /// stricter. Must be positive.
    pub liquidation_threshold: u64,
    /// Minimum acceptable health factor for risk-increasing operations, and
    /// the bound below which a position becomes liquidatable.
    pub min_health_factor: u64,
    /// Basis-points multiplier (10000 = 100%) applied to seized collateral.
    pub liquidation_bonus: u64,
    pub oracle: AccountId,
    pub stablecoin_mint: AccountId,
    pub vault: AccountId,
    pub bump: u8,
}

impl State {
    /// Well-formedness: a zero threshold would make every health-factor
    /// division fail, so initialization refuses it.
    pub open spec fn wf(self) -> bool {
        self.liquidation_threshold > 0
    }
}

/// Per-user position: collateral deposited and synthetic debt owed. Created
/// at `(0, 0)` on first contact and only ever mutated inside a transition
/// that has already validated the result.
#[derive(Clone, Copy, Debug, PartialEq, Eq, Structural)]
pub struct UserAccount {
    pub collateral_amount: u64,
    pub debt_amount: u64,
}

impl UserAccount {
    pub fn new() -> (r: UserAccount)
        ensures
            r.collateral_amount == 0,
            r.debt_amount == 0,
    {
        UserAccount { collateral_amount: 0, debt_amount: 0 }
    }
}

/// The pooled custody balance backing all positions, conceptually the sum
/// of every position's `collateral_amount`. Every transition that moves
/// collateral adjusts it in lockstep with the position it touches.
#[derive(Clone, Copy, Debug, PartialEq, Eq, Structural)]
pub struct VaultPool {
    pub balance: u64,
}

impl VaultPool {
    pub fn new() -> (r: VaultPool)
        ensures
            r.balance == 0,
    {
        VaultPool { balance: 0 }
    }
}

} // verus!
