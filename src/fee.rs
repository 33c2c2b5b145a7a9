use vstd::prelude::*;
use crate::error::ErrorCode;
use crate::key::Key;
use crate::transfer::{Pool, Transfer};

verus! {

/// Basis points in a whole.
pub const BPS_DENOMINATOR: u64 = 10000;

/// A resolved builder receives `BUILDER_SHARE_NUMERATOR / BUILDER_SHARE_DENOMINATOR`
/// of each fee (rounded down); the protocol keeps the rest.
pub const BUILDER_SHARE_NUMERATOR: u64 = 1;

pub const BUILDER_SHARE_DENOMINATOR: u64 = 5;

/// The amount owed for `seconds` of usage at `price` per second.
pub open spec fn gross_for(seconds: u64, price: u64) -> int {
    seconds * price
}

/// The fee taken from `gross` at `bps` basis points, rounded down.
pub open spec fn fee_for(gross: int, bps: int) -> int {
    gross * bps / (BPS_DENOMINATOR as int)
}

/// The part of a fee that goes to a resolved builder, rounded down.
pub open spec fn builder_share_for(fee: int) -> int {
    fee * (BUILDER_SHARE_NUMERATOR as int) / (BUILDER_SHARE_DENOMINATOR as int)
}

pub(crate) proof fn lemma_scaled_down(x: int, num: int, den: int)
    requires
        0 <= x,
        0 <= num <= den,
        0 < den,
    ensures
        0 <= x * num / den <= x,
{
    assert(0 <= x * num) by (nonlinear_arith)
        requires
            0 <= x,
            0 <= num,
    ;
    assert(x * num <= x * den) by (nonlinear_arith)
        requires
            0 <= x,
            num <= den,
    ;
    assert(x * den / den == x) by (nonlinear_arith)
        requires
            0 < den,
    ;
    assert(x * num / den <= x * den / den) by (nonlinear_arith)
        requires
            x * num <= x * den,
            0 < den,
    ;
    assert(0 <= x * num / den) by (nonlinear_arith)
        requires
            0 <= x * num,
            0 < den,
    ;
}

/// `seconds * price`, computed in a wider type; `None` where it does not fit
/// the unit.
pub fn gross_amount(seconds: u64, price: u64) -> (r: Option<u64>)
    ensures
        gross_for(seconds, price) <= u64::MAX ==> r == Some(gross_for(seconds, price) as u64),
        gross_for(seconds, price) > u64::MAX ==> r is None,
{
    proof {
        assert((seconds as int) * (price as int) <= u64::MAX * u64::MAX) by (nonlinear_arith)
            requires
                seconds <= u64::MAX,
                price <= u64::MAX,
        ;
    }
    let wide: u128 = (seconds as u128) * (price as u128);
    if wide > u64::MAX as u128 {
        None
    } else {
        Some(wide as u64)
    }
}

/// `floor(gross * bps / 10000)`, computed in a wider type. It never exceeds
/// `gross`.
pub fn fee_amount(gross: u64, bps: u16) -> (r: u64)
    requires
        bps <= BPS_DENOMINATOR,
    ensures
        r == fee_for(gross as int, bps as int),
        r <= gross,
{
    proof {
        lemma_scaled_down(gross as int, bps as int, BPS_DENOMINATOR as int);
        assert((gross as int) * (bps as int) <= u64::MAX * 10000) by (nonlinear_arith)
            requires
                gross <= u64::MAX,
                bps <= 10000,
        ;
    }
    let wide: u128 = (gross as u128) * (bps as u128) / (BPS_DENOMINATOR as u128);
    wide as u64
}

/// How a fee is apportioned between the protocol and a builder.
#[derive(Clone, Copy, Debug, PartialEq, Eq, Structural)]
pub struct FeeSplit {
    pub protocol_share: u64,
    pub builder_share: u64,
}

/// Splits `fee_amount`: with a resolved builder, the builder gets
/// `builder_share_for(fee_amount)` and the protocol the remainder; otherwise
/// the protocol gets all of it. No unit is lost to rounding.
pub fn distribute_fee(fee_amount: u64, builder_resolved: bool) -> (r: FeeSplit)
    ensures
        r.protocol_share + r.builder_share == fee_amount,
        builder_resolved ==> r.builder_share == builder_share_for(fee_amount as int),
        !builder_resolved ==> r.builder_share == 0,
{
    if builder_resolved {
        proof {
            lemma_scaled_down(
                fee_amount as int,
                BUILDER_SHARE_NUMERATOR as int,
                BUILDER_SHARE_DENOMINATOR as int,
            );
        }
        let builder_share: u64 = ((fee_amount as u128) * (BUILDER_SHARE_NUMERATOR as u128) / (
        BUILDER_SHARE_DENOMINATOR as u128)) as u64;
        FeeSplit { protocol_share: fee_amount - builder_share, builder_share }
    } else {
        FeeSplit { protocol_share: fee_amount, builder_share: 0 }
    }
}

/// The protocol's claimable fees and the lifetime volume through the fee path.
#[derive(Clone, Copy, Debug)]
pub struct FeeVaultState {
    pub authority: Key,
    pub protocol_balance: u64,
    pub total_collected: u64,
}

impl FeeVaultState {
    pub open spec fn wf(&self) -> bool {
        self.protocol_balance <= self.total_collected
    }
}

/// Creates the fee vault with nothing collected, claimable by `admin`.
pub fn initialize_fee_vault(admin: Key) -> (r: FeeVaultState)
    ensures
        r == (FeeVaultState { authority: admin, protocol_balance: 0, total_collected: 0 }),
        r.wf(),
{
    FeeVaultState { authority: admin, protocol_balance: 0, total_collected: 0 }
}

/// What a protocol claim by `caller` yields on `vault`.
pub open spec fn protocol_claim(vault: FeeVaultState, caller: Key) -> Result<Transfer, ErrorCode> {
    if caller != vault.authority {
        Err(ErrorCode::Unauthorized)
    } else if vault.protocol_balance == 0 {
        Err(ErrorCode::NothingToClaim)
    } else {
        Ok(Transfer { from: Pool::FeeVault, to: Pool::Wallet(caller), amount: vault.protocol_balance })
    }
}

/// The fee vault after a protocol claim by `caller`: emptied on success,
/// unchanged on refusal.
pub open spec fn after_protocol_claim(vault: FeeVaultState, caller: Key) -> FeeVaultState {
    if protocol_claim(vault, caller) is Ok {
        FeeVaultState { protocol_balance: 0, ..vault }
    } else {
        vault
    }
}

/// Pays the whole claimable protocol balance to the vault's authority.
pub fn claim_protocol_fees(vault: &mut FeeVaultState, caller: Key) -> (r: Result<
    Transfer,
    ErrorCode,
>)
    requires
        old(vault).wf(),
    ensures
        r == protocol_claim(*old(vault), caller),
        *final(vault) == after_protocol_claim(*old(vault), caller),
        final(vault).wf(),
{
    if !caller.same(&vault.authority) {
        return Err(ErrorCode::Unauthorized);
    }
    let amount = vault.protocol_balance;
    if amount == 0 {
        return Err(ErrorCode::NothingToClaim);
    }
    vault.protocol_balance = 0;
    Ok(Transfer { from: Pool::FeeVault, to: Pool::Wallet(caller), amount })
}

} // verus!
