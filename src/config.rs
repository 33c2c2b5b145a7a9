use vstd::prelude::*;
use crate::error::ErrorCode;
use crate::key::Key;

verus! {

/// The largest fee rate: the whole settlement amount.
pub const MAX_FEE_BPS: u16 = 10000;

/// Who may close settlements and run subsidized payouts, and the fee rate.
#[derive(Clone, Copy, Debug)]
pub struct MarketConfig {
    pub authority: Key,
    pub fee_basis_points: u16,
}

impl MarketConfig {
    pub open spec fn wf(&self) -> bool {
        self.fee_basis_points <= MAX_FEE_BPS
    }
}

/// Creates the configuration with `admin` as its authority.
pub fn initialize_market_config(admin: Key, fee_basis_points: u16) -> (r: Result<
    MarketConfig,
    ErrorCode,
>)
    ensures
        fee_basis_points > MAX_FEE_BPS ==> r == Err::<MarketConfig, ErrorCode>(
            ErrorCode::InvalidFee,
        ),
        fee_basis_points <= MAX_FEE_BPS ==> r == Ok::<MarketConfig, ErrorCode>(
            MarketConfig { authority: admin, fee_basis_points },
        ),
        r is Ok ==> r->Ok_0.wf(),
{
    if fee_basis_points > MAX_FEE_BPS {
        return Err(ErrorCode::InvalidFee);
    }
    Ok(MarketConfig { authority: admin, fee_basis_points })
}

/// Hands the configuration over to `new_authority`; only the current
/// authority may do so.
pub fn update_authority(config: &mut MarketConfig, caller: Key, new_authority: Key) -> (r: Result<
    (),
    ErrorCode,
>)
    ensures
        caller == old(config).authority ==> r is Ok && *final(config) == (MarketConfig {
            authority: new_authority,
            ..*old(config)
        }),
        caller != old(config).authority ==> r == Err::<(), ErrorCode>(ErrorCode::Unauthorized)
            && *final(config) == *old(config),
{
    if !caller.same(&config.authority) {
        return Err(ErrorCode::Unauthorized);
    }
    config.authority = new_authority;
    Ok(())
}

/// Changes the fee rate; only the current authority may do so, and the rate
/// stays within `MAX_FEE_BPS`.
pub fn update_fee_bps(config: &mut MarketConfig, caller: Key, fee_basis_points: u16) -> (r: Result<
    (),
    ErrorCode,
>)
    ensures
        caller != old(config).authority ==> r == Err::<(), ErrorCode>(ErrorCode::Unauthorized),
        caller == old(config).authority && fee_basis_points > MAX_FEE_BPS ==> r == Err::<
            (),
            ErrorCode,
        >(ErrorCode::InvalidFee),
        caller == old(config).authority && fee_basis_points <= MAX_FEE_BPS ==> r is Ok,
        r is Ok ==> *final(config) == (MarketConfig { fee_basis_points, ..*old(config) }),
        r is Err ==> *final(config) == *old(config),
{
    if !caller.same(&config.authority) {
        return Err(ErrorCode::Unauthorized);
    }
    if fee_basis_points > MAX_FEE_BPS {
        return Err(ErrorCode::InvalidFee);
    }
    config.fee_basis_points = fee_basis_points;
    Ok(())
}

} // verus!
