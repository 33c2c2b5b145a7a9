use vstd::prelude::*;
use crate::key::Key;

verus! {

/// A source or destination of funds held by the host ledger.
#[derive(Clone, Copy, Debug, PartialEq, Eq)]
pub enum Pool {
    /// A wallet owned by the given identity.
    Wallet(Key),
    /// The escrow vault of the given agent.
    EscrowVault(Key),
    /// The pool that holds collected fees, for the protocol and for builders.
    FeeVault,
    /// The operator-funded pool for subsidized payouts.
    FuelTankVault,
}

/// A movement of `amount` units that the host ledger must perform.
#[derive(Clone, Copy, Debug, PartialEq, Eq)]
pub struct Transfer {
    pub from: Pool,
    pub to: Pool,
    pub amount: u64,
}

} // verus!
