use vstd::prelude::*;
use crate::error::ErrorCode;
use crate::key::Key;
use crate::transfer::{Pool, Transfer};

verus! {

/// An agent's prepaid balance, held in the agent's escrow vault.
#[derive(Clone, Copy, Debug)]
pub struct EscrowAccount {
    pub agent: Key,
    pub balance: u64,
}

/// The balance of an escrow record that may not exist yet.
pub open spec fn balance_of(slot: Option<EscrowAccount>) -> int {
    match slot {
        Some(e) => e.balance as int,
        None => 0,
    }
}

/// Adds `amount` to `agent`'s escrow, creating the record if `slot` is empty
/// and keeping an existing balance. The agent funds it from its own wallet; a
/// record that belongs to another agent is refused.
pub fn deposit_escrow(slot: &mut Option<EscrowAccount>, agent: Key, amount: u64) -> (r: Result<
    Transfer,
    ErrorCode,
>)
    ensures
        amount == 0 ==> r == Err::<Transfer, ErrorCode>(ErrorCode::ZeroAmount),
        amount > 0 && (*old(slot)) is Some && (*old(slot))->Some_0.agent != agent ==> r == Err::<
            Transfer,
            ErrorCode,
        >(ErrorCode::InvalidPool),
        amount > 0 && ((*old(slot)) is Some ==> (*old(slot))->Some_0.agent == agent) && balance_of(
            *old(slot),
        ) + amount > u64::MAX ==> r == Err::<Transfer, ErrorCode>(ErrorCode::Overflow),
        amount > 0 && ((*old(slot)) is Some ==> (*old(slot))->Some_0.agent == agent) && balance_of(
            *old(slot),
        ) + amount <= u64::MAX ==> r == Ok::<Transfer, ErrorCode>(
            Transfer { from: Pool::Wallet(agent), to: Pool::EscrowVault(agent), amount },
        ),
        r is Ok ==> *final(slot) == Some(
            EscrowAccount { agent, balance: (balance_of(*old(slot)) + amount) as u64 },
        ),
        r is Err ==> *final(slot) == *old(slot),
{
    if amount == 0 {
        return Err(ErrorCode::ZeroAmount);
    }
    let current: Option<EscrowAccount> = *slot;
    let prior: u64 = match current {
        Some(e) => {
            if !e.agent.same(&agent) {
                return Err(ErrorCode::InvalidPool);
            }
            e.balance
        },
        None => 0,
    };
    let balance = match prior.checked_add(amount) {
        Some(b) => b,
        None => {
            return Err(ErrorCode::Overflow);
        },
    };
    *slot = Some(EscrowAccount { agent, balance });
    Ok(Transfer { from: Pool::Wallet(agent), to: Pool::EscrowVault(agent), amount })
}

/// Returns `amount` from the escrow to its agent; only the agent may do so.
pub fn withdraw_escrow(escrow: &mut EscrowAccount, caller: Key, amount: u64) -> (r: Result<
    Transfer,
    ErrorCode,
>)
    ensures
        caller != old(escrow).agent ==> r == Err::<Transfer, ErrorCode>(ErrorCode::Unauthorized),
        caller == old(escrow).agent && amount > old(escrow).balance ==> r == Err::<
            Transfer,
            ErrorCode,
        >(ErrorCode::InsufficientFunds),
        caller == old(escrow).agent && amount <= old(escrow).balance ==> r == Ok::<
            Transfer,
            ErrorCode,
        >(
            Transfer {
                from: Pool::EscrowVault(old(escrow).agent),
                to: Pool::Wallet(old(escrow).agent),
                amount,
            },
        ),
        r is Ok ==> *final(escrow) == (EscrowAccount {
            balance: (old(escrow).balance - amount) as u64,
            ..*old(escrow)
        }),
        r is Err ==> *final(escrow) == *old(escrow),
{
    if !caller.same(&escrow.agent) {
        return Err(ErrorCode::Unauthorized);
    }
    if amount > escrow.balance {
        return Err(ErrorCode::InsufficientFunds);
    }
    escrow.balance = escrow.balance - amount;
    Ok(Transfer { from: Pool::EscrowVault(escrow.agent), to: Pool::Wallet(escrow.agent), amount })
}

/// Returns the whole remaining balance to the agent and leaves the escrow at
/// zero; only the agent may do so.
pub fn refund_remainder(escrow: &mut EscrowAccount, caller: Key) -> (r: Result<
    Transfer,
    ErrorCode,
>)
    ensures
        caller != old(escrow).agent ==> r == Err::<Transfer, ErrorCode>(ErrorCode::Unauthorized),
        caller == old(escrow).agent && old(escrow).balance == 0 ==> r == Err::<
            Transfer,
            ErrorCode,
        >(ErrorCode::ZeroBalance),
        caller == old(escrow).agent && old(escrow).balance > 0 ==> r == Ok::<Transfer, ErrorCode>(
            Transfer {
                from: Pool::EscrowVault(old(escrow).agent),
                to: Pool::Wallet(old(escrow).agent),
                amount: old(escrow).balance,
            },
        ),
        r is Ok ==> *final(escrow) == (EscrowAccount { balance: 0, ..*old(escrow) }),
        r is Err ==> *final(escrow) == *old(escrow),
{
    if !caller.same(&escrow.agent) {
        return Err(ErrorCode::Unauthorized);
    }
    let amount = escrow.balance;
    if amount == 0 {
        return Err(ErrorCode::ZeroBalance);
    }
    escrow.balance = 0;
    Ok(Transfer { from: Pool::EscrowVault(escrow.agent), to: Pool::Wallet(escrow.agent), amount })
}

} // verus!
