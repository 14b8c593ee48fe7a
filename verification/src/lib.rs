//! Transaction-construction core of a token-sale instruction: input
//! validation, the fixed bonus-tier pricing rule, and the sequencing of a
//! purchase's two dependent transfer legs (native currency to the treasury,
//! then sale tokens to the buyer), stated and proved over a plain model of
//! the two ledgers' accounts.

pub mod error;
pub mod ledger;
pub mod pricing;
pub mod purchase;

pub use error::ErrorCode;
pub use error::LedgerError;
pub use error::PurchaseError;
pub use ledger::LedgerAccount;
pub use purchase::CompletePurchase;
pub use purchase::CreatePurchaseTransaction;
