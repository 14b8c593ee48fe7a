use vstd::prelude::*;
use crate::error::ErrorCode;
use crate::error::LedgerError;
use crate::error::PurchaseError;
use crate::ledger::LedgerAccount;
use crate::ledger::transfer;
use crate::ledger::transfer_accepted;
use crate::ledger::transfer_refusal;
use crate::pricing::token_amount;
use crate::pricing::token_amount_of;
use crate::pricing::valid_lock_duration;
use crate::pricing::validate_request;

verus! {

/// Everything the purchase instruction touches, as plain ledger state: the
/// two co-signing identities and the four accounts its two legs move value
/// between. The buyer's token account may be absent; the token leg creates
/// it on demand. The invocation surface also reserves slots for a governance
/// subsystem, but the instruction never reads or writes them, so they have
/// no place in this model.
#[derive(Clone, Copy, PartialEq, Eq, Debug)]
pub struct CreatePurchaseTransaction {
    /// The buyer's identity; co-signs and pays the native leg.
    pub user: u64,
    /// The custodian's identity; co-signs and authorizes the token leg.
    pub admin: u64,
    /// The buyer's native-currency account.
    pub user_account: LedgerAccount,
    /// The fixed treasury account the payment lands in.
    pub treasury: LedgerAccount,
    /// The custodian's token account the sale tokens leave from.
    pub admin_token_account: LedgerAccount,
    /// The buyer's token account, if it exists yet.
    pub user_token_account: Option<LedgerAccount>,
}

/// The account surface of the record-only operation: the buyer is named but
/// only ever read.
#[derive(Clone, Copy, PartialEq, Eq, Debug)]
pub struct CompletePurchase {
    pub user: LedgerAccount,
}

/// A request the purchase instruction accepts: a selector from the tier
/// table and a strictly positive payment.
pub open spec fn purchase_valid(sol_amount: u64, lock_duration_months: u8) -> bool {
    valid_lock_duration(lock_duration_months) && sol_amount > 0
}

/// The buyer's token account as the token leg sees it: the existing account,
/// or the one created on demand — owned by the buyer, empty — if absent.
pub open spec fn materialized_user_token_account(
    accounts: CreatePurchaseTransaction,
) -> LedgerAccount {
    match accounts.user_token_account {
        Some(account) => account,
        None => LedgerAccount { authority: accounts.user, balance: 0 },
    }
}

/// `accounts` with the buyer's token account in place. The creation is a
/// committed token-ledger operation of its own: it stays even if the
/// transfer after it is refused.
pub open spec fn with_user_token_account(
    accounts: CreatePurchaseTransaction,
) -> CreatePurchaseTransaction {
    CreatePurchaseTransaction {
        user_token_account: Some(materialized_user_token_account(accounts)),
        ..accounts
    }
}

/// Whether the native ledger accepts the payment leg: the buyer signs for
/// their own account, covers the payment, and the treasury credit fits.
pub open spec fn native_leg_accepted(
    accounts: CreatePurchaseTransaction,
    sol_amount: u64,
) -> bool {
    transfer_accepted(accounts.user_account, accounts.treasury, sol_amount as int, accounts.user)
}

/// The refusal the native ledger reports for a payment leg it rejects.
pub open spec fn native_leg_refusal(
    accounts: CreatePurchaseTransaction,
    sol_amount: u64,
) -> LedgerError
    recommends
        !native_leg_accepted(accounts, sol_amount),
{
    transfer_refusal(accounts.user_account, accounts.treasury, sol_amount as int, accounts.user)
}

/// `accounts` after the payment leg has committed: the payment has moved
/// from the buyer's account to the treasury, nothing else has.
pub open spec fn native_leg_applied(
    accounts: CreatePurchaseTransaction,
    sol_amount: u64,
) -> CreatePurchaseTransaction
    recommends
        native_leg_accepted(accounts, sol_amount),
{
    CreatePurchaseTransaction {
        user_account: LedgerAccount {
            authority: accounts.user_account.authority,
            balance: (accounts.user_account.balance - sol_amount) as u64,
        },
        treasury: LedgerAccount {
            authority: accounts.treasury.authority,
            balance: (accounts.treasury.balance + sol_amount) as u64,
        },
        ..accounts
    }
}

/// Whether the token ledger accepts the token leg: the custodian signs for
/// the disbursing account, which covers the bonus-adjusted amount, and the
/// credit fits in the buyer's (possibly just created) token account.
pub open spec fn token_leg_accepted(
    accounts: CreatePurchaseTransaction,
    sol_amount: u64,
    lock_duration_months: u8,
) -> bool
    recommends
        valid_lock_duration(lock_duration_months),
{
    transfer_accepted(
        accounts.admin_token_account,
        materialized_user_token_account(accounts),
        token_amount_of(sol_amount, lock_duration_months),
        accounts.admin,
    )
}

/// The refusal the token ledger reports for a token leg it rejects.
pub open spec fn token_leg_refusal(
    accounts: CreatePurchaseTransaction,
    sol_amount: u64,
    lock_duration_months: u8,
) -> LedgerError
    recommends
        valid_lock_duration(lock_duration_months),
        !token_leg_accepted(accounts, sol_amount, lock_duration_months),
{
    transfer_refusal(
        accounts.admin_token_account,
        materialized_user_token_account(accounts),
        token_amount_of(sol_amount, lock_duration_months),
        accounts.admin,
    )
}

/// `accounts` after a fully successful purchase: the payment sits in the
/// treasury and exactly the bonus-adjusted token amount has moved from the
/// custodian to the buyer's token account.
pub open spec fn purchase_applied(
    accounts: CreatePurchaseTransaction,
    sol_amount: u64,
    lock_duration_months: u8,
) -> CreatePurchaseTransaction
    recommends
        purchase_valid(sol_amount, lock_duration_months),
        native_leg_accepted(accounts, sol_amount),
        token_leg_accepted(accounts, sol_amount, lock_duration_months),
{
    let credited = token_amount_of(sol_amount, lock_duration_months);
    let target = materialized_user_token_account(accounts);
    CreatePurchaseTransaction {
        admin_token_account: LedgerAccount {
            authority: accounts.admin_token_account.authority,
            balance: (accounts.admin_token_account.balance - credited) as u64,
        },
        user_token_account: Some(
            LedgerAccount {
                authority: target.authority,
                balance: (target.balance + credited) as u64,
            },
        ),
        ..native_leg_applied(accounts, sol_amount)
    }
}

/// The purchase instruction: validate, move the payment to the treasury,
/// compute the bonus-adjusted token amount, move the tokens to the buyer.
///
/// The two legs run on different ledgers with no cross-ledger atomicity. The
/// payment leg gates the token leg — a refused payment means nothing moved —
/// but a token leg refused after the payment committed leaves the payment in
/// the treasury, with no refund and no recorded obligation. The last two
/// clauses state that exposure exactly.
pub fn create_purchase_transaction(
    accounts: &mut CreatePurchaseTransaction,
    sol_amount: u64,
    lock_duration_months: u8,
) -> (r: Result<(), PurchaseError>)
    ensures
        !valid_lock_duration(lock_duration_months) ==> {
            &&& r == Err::<(), PurchaseError>(
                PurchaseError::Program(ErrorCode::InvalidLockDuration),
            )
            &&& *final(accounts) == *old(accounts)
        },
        valid_lock_duration(lock_duration_months) && sol_amount == 0 ==> {
            &&& r == Err::<(), PurchaseError>(PurchaseError::Program(ErrorCode::InvalidAmount))
            &&& *final(accounts) == *old(accounts)
        },
        purchase_valid(sol_amount, lock_duration_months) && !native_leg_accepted(
            *old(accounts),
            sol_amount,
        ) ==> {
            &&& r == Err::<(), PurchaseError>(
                PurchaseError::Ledger(native_leg_refusal(*old(accounts), sol_amount)),
            )
            &&& *final(accounts) == *old(accounts)
        },
        purchase_valid(sol_amount, lock_duration_months) && native_leg_accepted(
            *old(accounts),
            sol_amount,
        ) && !token_leg_accepted(*old(accounts), sol_amount, lock_duration_months) ==> {
            &&& r == Err::<(), PurchaseError>(
                PurchaseError::Ledger(
                    token_leg_refusal(*old(accounts), sol_amount, lock_duration_months),
                ),
            )
            &&& *final(accounts) == with_user_token_account(
                native_leg_applied(*old(accounts), sol_amount),
            )
        },
        purchase_valid(sol_amount, lock_duration_months) && native_leg_accepted(
            *old(accounts),
            sol_amount,
        ) && token_leg_accepted(*old(accounts), sol_amount, lock_duration_months) ==> {
            &&& r == Ok::<(), PurchaseError>(())
            &&& *final(accounts) == purchase_applied(
                *old(accounts),
                sol_amount,
                lock_duration_months,
            )
        },
{
    // Fail fast: no side effect may precede validation.
    match validate_request(sol_amount, lock_duration_months) {
        Ok(_) => {},
        Err(code) => {
            return Err(PurchaseError::Program(code));
        },
    }
    // Step 1: the payment leg. A refusal here stops the whole purchase
    // before the token ledger is touched.
    let mut user_account = accounts.user_account;
    let mut treasury = accounts.treasury;
    match transfer(&mut user_account, &mut treasury, sol_amount, accounts.user) {
        Ok(_) => {
            accounts.user_account = user_account;
            accounts.treasury = treasury;
        },
        Err(refusal) => {
            return Err(PurchaseError::Ledger(refusal));
        },
    }
    // Step 2: pure bonus computation.
    let total_token_amount = token_amount(sol_amount, lock_duration_months);
    // Step 3: the token leg. The buyer's token account is created on demand;
    // the creation and the payment leg above stay committed even if this
    // transfer is refused — there is no cross-ledger rollback.
    let mut admin_token_account = accounts.admin_token_account;
    let mut user_token_account = match accounts.user_token_account {
        Some(account) => account,
        None => LedgerAccount { authority: accounts.user, balance: 0 },
    };
    let step = transfer(
        &mut admin_token_account,
        &mut user_token_account,
        total_token_amount,
        accounts.admin,
    );
    accounts.user_token_account = Some(user_token_account);
    match step {
        Ok(_) => {
            accounts.admin_token_account = admin_token_account;
            Ok(())
        },
        Err(refusal) => Err(PurchaseError::Ledger(refusal)),
    }
}

/// The record-only acknowledgment hook: it validates nothing beyond what the
/// platform already checked, writes nothing, and always succeeds. Its name
/// promises no enforcement of the referenced transaction.
pub fn complete_purchase(
    accounts: &mut CompletePurchase,
    _sol_amount: u64,
    _lock_duration_months: u8,
    _transaction_signature: String,
) -> (r: Result<(), PurchaseError>)
    ensures
        r == Ok::<(), PurchaseError>(()),
        *final(accounts) == *old(accounts),
{
    Ok(())
}

} // verus!
