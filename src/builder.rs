use vstd::prelude::*;
use crate::config::MarketConfig;
use crate::error::ErrorCode;
use crate::key::{Key, bytes_equal};
use crate::transfer::{Pool, Transfer};

verus! {

/// A registered referral code, the wallet its earnings are paid to, what it
/// can claim now and what it has earned in all.
#[derive(Clone, Copy, Debug)]
pub struct BuilderBalance {
    pub builder_code: [u8; 32],
    pub wallet: Key,
    pub balance: u64,
    pub total_earned: u64,
}

impl BuilderBalance {
    pub open spec fn wf(&self) -> bool {
        self.balance <= self.total_earned
    }
}

/// Whether `builder` is the registered record of the referral `code`.
pub open spec fn resolves(code: Option<[u8; 32]>, builder: Option<BuilderBalance>) -> bool {
    &&& code is Some
    &&& builder is Some
    &&& builder->Some_0.builder_code == code->Some_0
}

/// Decides whether a settlement's referral code names the given builder record.
pub fn resolve_builder(code: &Option<[u8; 32]>, builder: &Option<BuilderBalance>) -> (r: bool)
    ensures
        r == resolves(*code, *builder),
{
    match (code, builder) {
        (Some(c), Some(b)) => bytes_equal(c, &b.builder_code),
        _ => false,
    }
}

/// Registers `builder_code` with `wallet` and nothing earned; only the market
/// authority may do so, and a code is registered once.
pub fn register_builder(
    slot: &mut Option<BuilderBalance>,
    config: &MarketConfig,
    caller: Key,
    builder_code: [u8; 32],
    wallet: Key,
) -> (r: Result<(), ErrorCode>)
    ensures
        caller != config.authority ==> r == Err::<(), ErrorCode>(ErrorCode::Unauthorized),
        caller == config.authority && (*old(slot)) is Some ==> r == Err::<(), ErrorCode>(
            ErrorCode::AlreadyRegistered,
        ),
        caller == config.authority && (*old(slot)) is None ==> r is Ok,
        r is Ok ==> *final(slot) == Some(
            BuilderBalance { builder_code, wallet, balance: 0, total_earned: 0 },
        ),
        r is Err ==> *final(slot) == *old(slot),
{
    if !caller.same(&config.authority) {
        return Err(ErrorCode::Unauthorized);
    }
    if slot.is_some() {
        return Err(ErrorCode::AlreadyRegistered);
    }
    *slot = Some(BuilderBalance { builder_code, wallet, balance: 0, total_earned: 0 });
    Ok(())
}

/// Moves the builder's payouts to `new_wallet`; only the current wallet may
/// do so.
pub fn update_builder_wallet(builder: &mut BuilderBalance, caller: Key, new_wallet: Key) -> (r:
    Result<(), ErrorCode>)
    ensures
        caller == old(builder).wallet ==> r is Ok && *final(builder) == (BuilderBalance {
            wallet: new_wallet,
            ..*old(builder)
        }),
        caller != old(builder).wallet ==> r == Err::<(), ErrorCode>(ErrorCode::Unauthorized)
            && *final(builder) == *old(builder),
{
    if !caller.same(&builder.wallet) {
        return Err(ErrorCode::Unauthorized);
    }
    builder.wallet = new_wallet;
    Ok(())
}

/// What a claim by `caller` yields on `builder`.
pub open spec fn builder_claim(builder: BuilderBalance, caller: Key) -> Result<Transfer, ErrorCode> {
    if caller != builder.wallet {
        Err(ErrorCode::Unauthorized)
    } else if builder.balance == 0 {
        Err(ErrorCode::NothingToClaim)
    } else {
        Ok(Transfer { from: Pool::FeeVault, to: Pool::Wallet(builder.wallet), amount: builder.balance })
    }
}

/// The builder record after a claim by `caller`: its claimable balance
/// emptied on success, lifetime earnings kept; unchanged on refusal.
pub open spec fn after_builder_claim(builder: BuilderBalance, caller: Key) -> BuilderBalance {
    if builder_claim(builder, caller) is Ok {
        BuilderBalance { balance: 0, ..builder }
    } else {
        builder
    }
}

/// Pays the builder's whole claimable balance from the fee vault to its wallet.
pub fn claim_builder_balance(builder: &mut BuilderBalance, caller: Key) -> (r: Result<
    Transfer,
    ErrorCode,
>)
    requires
        old(builder).wf(),
    ensures
        r == builder_claim(*old(builder), caller),
        *final(builder) == after_builder_claim(*old(builder), caller),
        final(builder).wf(),
{
    if !caller.same(&builder.wallet) {
        return Err(ErrorCode::Unauthorized);
    }
    let amount = builder.balance;
    if amount == 0 {
        return Err(ErrorCode::NothingToClaim);
    }
    builder.balance = 0;
    Ok(Transfer { from: Pool::FeeVault, to: Pool::Wallet(builder.wallet), amount })
}

} // verus!
