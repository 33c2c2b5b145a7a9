use vstd::prelude::*;
use crate::builder::{BuilderBalance, resolve_builder, resolves};
use crate::config::MarketConfig;
use crate::error::ErrorCode;
use crate::escrow::EscrowAccount;
use crate::fee::{
    FeeVaultState, builder_share_for, distribute_fee, fee_amount, fee_for, gross_amount, gross_for,
};
use crate::key::Key;
use crate::transfer::{Pool, Transfer};

verus! {

/// The audit record of one settlement: its usage inputs, the amounts computed
/// from them and the parties paid.
#[derive(Clone, Copy, Debug)]
pub struct SettlementRecord {
    pub agent: Key,
    pub recipient: Key,
    pub verified_seconds: u64,
    pub price_per_second: u64,
    /// Accepted and recorded; no replay check is made on it.
    pub nonce: u64,
    pub fee_basis_points: u16,
    pub gross: u64,
    pub fee: u64,
    pub net: u64,
    pub protocol_share: u64,
    pub builder_share: u64,
}

/// A closed settlement: its record and the transfers the host must execute.
#[derive(Debug)]
pub struct Settlement {
    pub record: SettlementRecord,
    pub transfers: Vec<Transfer>,
}

/// The fee of a settlement of `seconds` at `price` under `config`.
pub open spec fn settlement_fee(config: MarketConfig, seconds: u64, price: u64) -> int {
    fee_for(gross_for(seconds, price), config.fee_basis_points as int)
}

/// The builder's part of a settlement's fee: nothing unless the code resolves.
pub open spec fn settlement_builder_share(
    config: MarketConfig,
    builder: Option<BuilderBalance>,
    code: Option<[u8; 32]>,
    seconds: u64,
    price: u64,
) -> int {
    if resolves(code, builder) {
        builder_share_for(settlement_fee(config, seconds, price))
    } else {
        0
    }
}

/// The first reason, in the order the checks are made, for which a settlement
/// is refused; `None` where it goes through.
pub open spec fn settlement_error(
    config: MarketConfig,
    caller: Key,
    escrow: EscrowAccount,
    fee_vault: FeeVaultState,
    builder: Option<BuilderBalance>,
    code: Option<[u8; 32]>,
    seconds: u64,
    price: u64,
) -> Option<ErrorCode> {
    let gross = gross_for(seconds, price);
    let fee = settlement_fee(config, seconds, price);
    let share = settlement_builder_share(config, builder, code, seconds, price);
    if caller != config.authority {
        Some(ErrorCode::Unauthorized)
    } else if gross > u64::MAX {
        Some(ErrorCode::MathOverflow)
    } else if gross > escrow.balance {
        Some(ErrorCode::InsufficientFunds)
    } else if fee_vault.total_collected + fee > u64::MAX {
        Some(ErrorCode::Overflow)
    } else if resolves(code, builder) && builder->Some_0.total_earned + share > u64::MAX {
        Some(ErrorCode::Overflow)
    } else {
        None
    }
}

/// The transfers of a settlement: the net amount to the recipient, then the
/// fee to the fee vault, each only where it is not zero.
pub open spec fn settlement_transfers(agent: Key, recipient: Key, net: u64, fee: u64) -> Seq<
    Transfer,
> {
    let to_recipient = Transfer {
        from: Pool::EscrowVault(agent),
        to: Pool::Wallet(recipient),
        amount: net,
    };
    let to_fees = Transfer { from: Pool::EscrowVault(agent), to: Pool::FeeVault, amount: fee };
    (if net > 0 {
        seq![to_recipient]
    } else {
        Seq::empty()
    }) + (if fee > 0 {
        seq![to_fees]
    } else {
        Seq::empty()
    })
}

/// Settles `verified_seconds` of usage at `agreed_price_per_second` against the
/// agent's escrow, on the market authority's word: the gross amount leaves the
/// escrow, the fee is carved out of it and apportioned between the protocol
/// and a builder the referral code resolves to, and the rest goes to
/// `recipient`. Either every record changes or none does.
pub fn close_settlement(
    config: &MarketConfig,
    caller: Key,
    escrow: &mut EscrowAccount,
    fee_vault: &mut FeeVaultState,
    builder: &mut Option<BuilderBalance>,
    recipient: Key,
    verified_seconds: u64,
    agreed_price_per_second: u64,
    nonce: u64,
    builder_code: Option<[u8; 32]>,
) -> (r: Result<Settlement, ErrorCode>)
    requires
        config.wf(),
        old(fee_vault).wf(),
        (*old(builder)) is Some ==> (*old(builder))->Some_0.wf(),
    ensures
        r is Err <==> settlement_error(
            *config,
            caller,
            *old(escrow),
            *old(fee_vault),
            *old(builder),
            builder_code,
            verified_seconds,
            agreed_price_per_second,
        ) is Some,
        r is Err ==> r->Err_0 == settlement_error(
            *config,
            caller,
            *old(escrow),
            *old(fee_vault),
            *old(builder),
            builder_code,
            verified_seconds,
            agreed_price_per_second,
        )->Some_0,
        r is Err ==> *final(escrow) == *old(escrow) && *final(fee_vault) == *old(fee_vault)
            && *final(builder) == *old(builder),
        r is Ok ==> r->Ok_0.record == (SettlementRecord {
            agent: old(escrow).agent,
            recipient,
            verified_seconds,
            price_per_second: agreed_price_per_second,
            nonce,
            fee_basis_points: config.fee_basis_points,
            gross: gross_for(verified_seconds, agreed_price_per_second) as u64,
            fee: settlement_fee(*config, verified_seconds, agreed_price_per_second) as u64,
            net: (gross_for(verified_seconds, agreed_price_per_second) - settlement_fee(
                *config,
                verified_seconds,
                agreed_price_per_second,
            )) as u64,
            protocol_share: (settlement_fee(*config, verified_seconds, agreed_price_per_second)
                - settlement_builder_share(
                *config,
                *old(builder),
                builder_code,
                verified_seconds,
                agreed_price_per_second,
            )) as u64,
            builder_share: settlement_builder_share(
                *config,
                *old(builder),
                builder_code,
                verified_seconds,
                agreed_price_per_second,
            ) as u64,
        }),
        r is Ok ==> r->Ok_0.record.net + r->Ok_0.record.fee == r->Ok_0.record.gross,
        r is Ok ==> r->Ok_0.record.protocol_share + r->Ok_0.record.builder_share
            == r->Ok_0.record.fee,
        r is Ok ==> r->Ok_0.transfers@ == settlement_transfers(
            old(escrow).agent,
            recipient,
            r->Ok_0.record.net,
            r->Ok_0.record.fee,
        ),
        r is Ok ==> *final(escrow) == (EscrowAccount {
            balance: (old(escrow).balance - r->Ok_0.record.gross) as u64,
            ..*old(escrow)
        }),
        r is Ok ==> *final(fee_vault) == (FeeVaultState {
            protocol_balance: (old(fee_vault).protocol_balance + r->Ok_0.record.protocol_share) as u64,
            total_collected: (old(fee_vault).total_collected + r->Ok_0.record.fee) as u64,
            ..*old(fee_vault)
        }),
        r is Ok && resolves(builder_code, *old(builder)) ==> *final(builder) == Some(
            BuilderBalance {
                balance: ((*old(builder))->Some_0.balance + r->Ok_0.record.builder_share) as u64,
                total_earned: ((*old(builder))->Some_0.total_earned
                    + r->Ok_0.record.builder_share) as u64,
                ..(*old(builder))->Some_0
            },
        ),
        r is Ok && !resolves(builder_code, *old(builder)) ==> *final(builder) == *old(builder),
        final(fee_vault).wf(),
        (*final(builder)) is Some ==> (*final(builder))->Some_0.wf(),
{
    if !caller.same(&config.authority) {
        return Err(ErrorCode::Unauthorized);
    }
    let gross = match gross_amount(verified_seconds, agreed_price_per_second) {
        Some(g) => g,
        None => {
            return Err(ErrorCode::MathOverflow);
        },
    };
    if gross > escrow.balance {
        return Err(ErrorCode::InsufficientFunds);
    }
    let fee = fee_amount(gross, config.fee_basis_points);
    let net = gross - fee;
    let resolved = resolve_builder(&builder_code, builder);
    let split = distribute_fee(fee, resolved);
    let total_collected = match fee_vault.total_collected.checked_add(fee) {
        Some(t) => t,
        None => {
            return Err(ErrorCode::Overflow);
        },
    };
    let current: Option<BuilderBalance> = *builder;
    let credited: Option<BuilderBalance> = match current {
        Some(b) => {
            if resolved {
                match b.total_earned.checked_add(split.builder_share) {
                    Some(earned) => Some(
                        BuilderBalance {
                            balance: b.balance + split.builder_share,
                            total_earned: earned,
                            ..b
                        },
                    ),
                    None => {
                        return Err(ErrorCode::Overflow);
                    },
                }
            } else {
                Some(b)
            }
        },
        None => None,
    };

    escrow.balance = escrow.balance - gross;
    fee_vault.protocol_balance = fee_vault.protocol_balance + split.protocol_share;
    fee_vault.total_collected = total_collected;
    *builder = credited;

    let agent = escrow.agent;
    let mut transfers: Vec<Transfer> = Vec::new();
    if net > 0 {
        transfers.push(
            Transfer { from: Pool::EscrowVault(agent), to: Pool::Wallet(recipient), amount: net },
        );
    }
    if fee > 0 {
        transfers.push(Transfer { from: Pool::EscrowVault(agent), to: Pool::FeeVault, amount: fee });
    }
    let record = SettlementRecord {
        agent,
        recipient,
        verified_seconds,
        price_per_second: agreed_price_per_second,
        nonce,
        fee_basis_points: config.fee_basis_points,
        gross,
        fee,
        net,
        protocol_share: split.protocol_share,
        builder_share: split.builder_share,
    };
    proof {
        assert(transfers@ =~= settlement_transfers(agent, recipient, net, fee));
    }
    Ok(Settlement { record, transfers })
}

} // verus!
