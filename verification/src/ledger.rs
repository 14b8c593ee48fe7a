use vstd::prelude::*;
use crate::error::LedgerError;

verus! {

/// One addressable balance record on a ledger, mutated only by authorized
/// transfers. `authority` is the control key that must sign any debit;
/// identities and keys are plain integers in this model, since the ledger
/// itself is an external collaborator.
#[derive(Clone, Copy, PartialEq, Eq, Debug)]
pub struct LedgerAccount {
    pub authority: u64,
    pub balance: u64,
}

/// When a ledger accepts a transfer leg: the signer controls the source, the
/// source covers the amount, and the credit fits in the destination.
pub open spec fn transfer_accepted(
    from: LedgerAccount,
    to: LedgerAccount,
    amount: int,
    signer: u64,
) -> bool {
    &&& signer == from.authority
    &&& amount <= from.balance
    &&& to.balance + amount <= u64::MAX
}

/// The refusal a ledger reports for a transfer it does not accept, checked in
/// this order: authorization first, then funds, then the credit.
pub open spec fn transfer_refusal(
    from: LedgerAccount,
    to: LedgerAccount,
    amount: int,
    signer: u64,
) -> LedgerError
    recommends
        !transfer_accepted(from, to, amount, signer),
{
    if signer != from.authority {
        LedgerError::Unauthorized
    } else if amount > from.balance {
        LedgerError::InsufficientFunds
    } else {
        LedgerError::BalanceOverflow
    }
}

/// Atomic debit/credit between two accounts of one ledger: either both sides
/// move or neither does, and authorities never change. A zero amount is
/// accepted — the token ledger allows empty transfers, so a purchase whose
/// truncated token amount is zero still goes through.
pub fn transfer(from: &mut LedgerAccount, to: &mut LedgerAccount, amount: u64, signer: u64) -> (r:
    Result<(), LedgerError>)
    ensures
        transfer_accepted(*old(from), *old(to), amount as int, signer) ==> {
            &&& r == Ok::<(), LedgerError>(())
            &&& final(from).balance == old(from).balance - amount
            &&& final(to).balance == old(to).balance + amount
        },
        !transfer_accepted(*old(from), *old(to), amount as int, signer) ==> {
            &&& r == Err::<(), LedgerError>(
                transfer_refusal(*old(from), *old(to), amount as int, signer),
            )
            &&& final(from).balance == old(from).balance
            &&& final(to).balance == old(to).balance
        },
        final(from).authority == old(from).authority,
        final(to).authority == old(to).authority,
{
    if signer != from.authority {
        return Err(LedgerError::Unauthorized);
    }
    if amount > from.balance {
        return Err(LedgerError::InsufficientFunds);
    }
    if amount > u64::MAX - to.balance {
        return Err(LedgerError::BalanceOverflow);
    }
    from.balance = from.balance - amount;
    to.balance = to.balance + amount;
    Ok(())
}

} // verus!
