//! Properties that relate several operations or hold of every input.
use vstd::prelude::*;
use crate::builder::{BuilderBalance, after_builder_claim, builder_claim};
use crate::config::MarketConfig;
use crate::error::ErrorCode;
use crate::escrow::EscrowAccount;
use crate::fee::{
    BPS_DENOMINATOR, BUILDER_SHARE_DENOMINATOR, BUILDER_SHARE_NUMERATOR, FeeVaultState,
    after_protocol_claim, builder_share_for, gross_for, lemma_scaled_down, protocol_claim,
};
use crate::key::Key;
use crate::settlement::{settlement_error, settlement_fee};
use crate::transfer::Transfer;

verus! {

/// For every settlement whose gross amount fits the unit and every fee rate
/// within bounds, the fee is at most the gross amount, so the net amount
/// `gross - fee` exists and `net + fee == gross` in the unit; the builder's
/// part of the fee is at most the fee, so the protocol's part exists too and
/// the two parts add up to the fee.
pub proof fn lemma_settlement_amounts(config: MarketConfig, seconds: u64, price: u64)
    requires
        config.wf(),
        gross_for(seconds, price) <= u64::MAX,
    ensures
        0 <= settlement_fee(config, seconds, price) <= gross_for(seconds, price),
        ((gross_for(seconds, price) - settlement_fee(config, seconds, price)) as u64) + (
        settlement_fee(config, seconds, price) as u64) == gross_for(seconds, price),
        0 <= builder_share_for(settlement_fee(config, seconds, price)) <= settlement_fee(
            config,
            seconds,
            price,
        ),
        (settlement_fee(config, seconds, price) - builder_share_for(
            settlement_fee(config, seconds, price),
        )) + builder_share_for(settlement_fee(config, seconds, price)) == settlement_fee(
            config,
            seconds,
            price,
        ),
{
    lemma_scaled_down(
        gross_for(seconds, price),
        config.fee_basis_points as int,
        BPS_DENOMINATOR as int,
    );
    lemma_scaled_down(
        settlement_fee(config, seconds, price),
        BUILDER_SHARE_NUMERATOR as int,
        BUILDER_SHARE_DENOMINATOR as int,
    );
}

/// A builder claim that went through leaves nothing to claim: a second claim
/// by the same wallet fails with `NothingToClaim`, moves no funds and changes
/// nothing.
pub proof fn lemma_builder_claim_twice(builder: BuilderBalance, caller: Key)
    requires
        builder_claim(builder, caller) is Ok,
    ensures
        builder_claim(after_builder_claim(builder, caller), caller) == Err::<Transfer, ErrorCode>(ErrorCode::NothingToClaim),
        after_builder_claim(after_builder_claim(builder, caller), caller) == after_builder_claim(
            builder,
            caller,
        ),
        after_builder_claim(builder, caller).total_earned == builder.total_earned,
{
}

/// A protocol claim that went through leaves nothing to claim: a second claim
/// by the same authority fails with `NothingToClaim`, moves no funds and
/// changes nothing.
pub proof fn lemma_protocol_claim_twice(vault: FeeVaultState, caller: Key)
    requires
        protocol_claim(vault, caller) is Ok,
    ensures
        protocol_claim(after_protocol_claim(vault, caller), caller) == Err::<Transfer, ErrorCode>(ErrorCode::NothingToClaim),
        after_protocol_claim(after_protocol_claim(vault, caller), caller) == after_protocol_claim(
            vault,
            caller,
        ),
        after_protocol_claim(vault, caller).total_collected == vault.total_collected,
{
}

/// A settlement whose gross amount exceeds the escrow balance is always
/// refused, and, when the authority asks for an amount that fits the unit,
/// refused for `InsufficientFunds`; `close_settlement` then leaves the escrow
/// balance, like every other record, as it was.
pub proof fn lemma_overdraw_refused(
    config: MarketConfig,
    caller: Key,
    escrow: EscrowAccount,
    fee_vault: FeeVaultState,
    builder: Option<BuilderBalance>,
    code: Option<[u8; 32]>,
    seconds: u64,
    price: u64,
)
    requires
        gross_for(seconds, price) > escrow.balance,
    ensures
        settlement_error(config, caller, escrow, fee_vault, builder, code, seconds, price) is Some,
        caller == config.authority && gross_for(seconds, price) <= u64::MAX ==> settlement_error(
            config,
            caller,
            escrow,
            fee_vault,
            builder,
            code,
            seconds,
            price,
        ) == Some(ErrorCode::InsufficientFunds),
{
}

} // verus!
