use vstd::prelude::*;
use crate::config::MarketConfig;
use crate::error::ErrorCode;
use crate::key::Key;
use crate::transfer::{Pool, Transfer};

verus! {

/// Marks the operator-funded payout pool as set up. What the pool holds is
/// kept by the host ledger, which refuses a payout it cannot cover.
#[derive(Clone, Copy, Debug)]
pub struct FuelTank {
    pub admin: Key,
}

/// Sets up the fuel tank; only the market authority may do so.
pub fn initialize_fuel_tank(config: &MarketConfig, caller: Key) -> (r: Result<FuelTank, ErrorCode>)
    ensures
        caller == config.authority ==> r == Ok::<FuelTank, ErrorCode>(FuelTank { admin: caller }),
        caller != config.authority ==> r == Err::<FuelTank, ErrorCode>(ErrorCode::Unauthorized),
{
    if !caller.same(&config.authority) {
        return Err(ErrorCode::Unauthorized);
    }
    Ok(FuelTank { admin: caller })
}

/// Pays `amount` from the fuel tank straight to `recipient`, outside escrow
/// and fees; only the market authority may do so. The host creates the
/// recipient's wallet if it is missing, at the caller's expense.
pub fn payout_user(config: &MarketConfig, caller: Key, recipient: Key, amount: u64) -> (r: Result<
    Transfer,
    ErrorCode,
>)
    ensures
        caller == config.authority ==> r == Ok::<Transfer, ErrorCode>(
            Transfer { from: Pool::FuelTankVault, to: Pool::Wallet(recipient), amount },
        ),
        caller != config.authority ==> r == Err::<Transfer, ErrorCode>(ErrorCode::Unauthorized),
{
    if !caller.same(&config.authority) {
        return Err(ErrorCode::Unauthorized);
    }
    Ok(Transfer { from: Pool::FuelTankVault, to: Pool::Wallet(recipient), amount })
}

} // verus!
