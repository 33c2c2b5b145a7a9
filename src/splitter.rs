use vstd::prelude::*;
use crate::fee::{BPS_DENOMINATOR, lemma_scaled_down};
use crate::key::Key;
use crate::transfer::{Pool, Transfer};

verus! {

/// The largest referrer share a direct split may grant: half the payment.
pub const MAX_REFERRER_BPS: u16 = 5000;

/// Why a direct split or a change to its configuration was refused.
#[derive(Clone, Copy, Debug, PartialEq, Eq, Structural)]
pub enum SplitterError {
    /// A referrer share above `MAX_REFERRER_BPS`.
    InvalidBps,
    /// A payment of nothing.
    ZeroAmount,
    /// The caller is not the configuration's authority.
    Unauthorized,
}

/// Configuration of direct payment splitting between the treasury and a
/// referrer, with the lifetime amount split through it.
#[derive(Clone, Copy, Debug)]
pub struct SplitterConfig {
    pub authority: Key,
    pub treasury: Key,
    pub default_referrer_bps: u16,
    pub total_split: u64,
}

impl SplitterConfig {
    pub open spec fn wf(&self) -> bool {
        self.default_referrer_bps <= MAX_REFERRER_BPS
    }
}

/// The record of one split payment.
#[derive(Clone, Copy, Debug)]
pub struct PaymentSplit {
    pub payer: Key,
    pub referrer: Key,
    pub total_amount: u64,
    pub treasury_amount: u64,
    pub referrer_amount: u64,
    pub referrer_bps: u16,
}

/// The referrer's part of `amount` at `bps` basis points, rounded down.
pub open spec fn referrer_amount_for(amount: int, bps: int) -> int {
    amount * bps / (BPS_DENOMINATOR as int)
}

/// The transfers of a split: the treasury's part, then the referrer's, each
/// only where it is not zero.
pub open spec fn split_transfers(payer: Key, treasury: Key, referrer: Key, split: PaymentSplit) -> Seq<
    Transfer,
> {
    let to_treasury = Transfer {
        from: Pool::Wallet(payer),
        to: Pool::Wallet(treasury),
        amount: split.treasury_amount,
    };
    let to_referrer = Transfer {
        from: Pool::Wallet(payer),
        to: Pool::Wallet(referrer),
        amount: split.referrer_amount,
    };
    (if split.treasury_amount > 0 {
        seq![to_treasury]
    } else {
        Seq::empty()
    }) + (if split.referrer_amount > 0 {
        seq![to_referrer]
    } else {
        Seq::empty()
    })
}

/// Creates the splitter configuration with `authority` as its admin.
pub fn initialize(authority: Key, treasury: Key, default_referrer_bps: u16) -> (r: Result<
    SplitterConfig,
    SplitterError,
>)
    ensures
        default_referrer_bps > MAX_REFERRER_BPS ==> r == Err::<SplitterConfig, SplitterError>(
            SplitterError::InvalidBps,
        ),
        default_referrer_bps <= MAX_REFERRER_BPS ==> r == Ok::<SplitterConfig, SplitterError>(
            SplitterConfig { authority, treasury, default_referrer_bps, total_split: 0 },
        ),
{
    if default_referrer_bps > MAX_REFERRER_BPS {
        return Err(SplitterError::InvalidBps);
    }
    Ok(SplitterConfig { authority, treasury, default_referrer_bps, total_split: 0 })
}

/// Splits `amount` paid by `payer`: the referrer gets `referrer_bps` of it,
/// rounded down, and the treasury the rest. The lifetime total saturates at
/// the unit's maximum.
pub fn split_payment(
    config: &mut SplitterConfig,
    payer: Key,
    referrer: Key,
    amount: u64,
    referrer_bps: u16,
) -> (r: Result<(PaymentSplit, Vec<Transfer>), SplitterError>)
    ensures
        referrer_bps > MAX_REFERRER_BPS ==> r matches Err(SplitterError::InvalidBps),
        referrer_bps <= MAX_REFERRER_BPS && amount == 0 ==> r matches Err(
            SplitterError::ZeroAmount,
        ),
        referrer_bps <= MAX_REFERRER_BPS && amount > 0 ==> r is Ok,
        r is Ok ==> r->Ok_0.0 == (PaymentSplit {
            payer,
            referrer,
            total_amount: amount,
            treasury_amount: (amount - referrer_amount_for(amount as int, referrer_bps as int)) as u64,
            referrer_amount: referrer_amount_for(amount as int, referrer_bps as int) as u64,
            referrer_bps,
        }),
        r is Ok ==> r->Ok_0.0.treasury_amount + r->Ok_0.0.referrer_amount == amount,
        r is Ok ==> r->Ok_0.1@ == split_transfers(payer, old(config).treasury, referrer, r->Ok_0.0),
        r is Ok ==> *final(config) == (SplitterConfig {
            total_split: if old(config).total_split + amount > u64::MAX {
                u64::MAX
            } else {
                (old(config).total_split + amount) as u64
            },
            ..*old(config)
        }),
        r is Err ==> *final(config) == *old(config),
{
    if referrer_bps > MAX_REFERRER_BPS {
        return Err(SplitterError::InvalidBps);
    }
    if amount == 0 {
        return Err(SplitterError::ZeroAmount);
    }
    proof {
        lemma_scaled_down(amount as int, referrer_bps as int, BPS_DENOMINATOR as int);
        assert((amount as int) * (referrer_bps as int) <= u64::MAX * 10000) by (nonlinear_arith)
            requires
                amount <= u64::MAX,
                referrer_bps <= 10000,
        ;
    }
    let referrer_amount: u64 = ((amount as u128) * (referrer_bps as u128) / (
    BPS_DENOMINATOR as u128)) as u64;
    let treasury_amount = amount - referrer_amount;
    let treasury = config.treasury;
    let mut transfers: Vec<Transfer> = Vec::new();
    if treasury_amount > 0 {
        transfers.push(
            Transfer { from: Pool::Wallet(payer), to: Pool::Wallet(treasury), amount: treasury_amount },
        );
    }
    if referrer_amount > 0 {
        transfers.push(
            Transfer { from: Pool::Wallet(payer), to: Pool::Wallet(referrer), amount: referrer_amount },
        );
    }
    config.total_split = config.total_split.saturating_add(amount);
    let split = PaymentSplit {
        payer,
        referrer,
        total_amount: amount,
        treasury_amount,
        referrer_amount,
        referrer_bps,
    };
    proof {
        assert(transfers@ =~= split_transfers(payer, treasury, referrer, split));
    }
    Ok((split, transfers))
}

/// Points the treasury share at `new_treasury`; only the authority may do so.
pub fn update_treasury(config: &mut SplitterConfig, caller: Key, new_treasury: Key) -> (r: Result<
    (),
    SplitterError,
>)
    ensures
        caller == old(config).authority ==> r is Ok && *final(config) == (SplitterConfig {
            treasury: new_treasury,
            ..*old(config)
        }),
        caller != old(config).authority ==> r == Err::<(), SplitterError>(
            SplitterError::Unauthorized,
        ) && *final(config) == *old(config),
{
    if !caller.same(&config.authority) {
        return Err(SplitterError::Unauthorized);
    }
    config.treasury = new_treasury;
    Ok(())
}

/// Changes the default referrer share; only the authority may do so, and the
/// share stays within `MAX_REFERRER_BPS`.
pub fn update_default_bps(config: &mut SplitterConfig, caller: Key, new_bps: u16) -> (r: Result<
    (),
    SplitterError,
>)
    ensures
        caller != old(config).authority ==> r == Err::<(), SplitterError>(
            SplitterError::Unauthorized,
        ),
        caller == old(config).authority && new_bps > MAX_REFERRER_BPS ==> r == Err::<
            (),
            SplitterError,
        >(SplitterError::InvalidBps),
        caller == old(config).authority && new_bps <= MAX_REFERRER_BPS ==> r is Ok,
        r is Ok ==> *final(config) == (SplitterConfig {
            default_referrer_bps: new_bps,
            ..*old(config)
        }),
        r is Err ==> *final(config) == *old(config),
{
    if !caller.same(&config.authority) {
        return Err(SplitterError::Unauthorized);
    }
    if new_bps > MAX_REFERRER_BPS {
        return Err(SplitterError::InvalidBps);
    }
    config.default_referrer_bps = new_bps;
    Ok(())
}

} // verus!
