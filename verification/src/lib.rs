//! A minimal fungible-token ledger: balances, allowances and a total-supply
//! counter, with direct transfers, delegated transfers, issuance and burning.
//!
//! The ledger is an explicit value. The identity of the account making a call
//! is passed as a parameter to every mutating operation, and the change
//! records that a host would broadcast are appended to an observable log held
//! by the ledger itself.

use vstd::prelude::*;

verus! {

/// An opaque, equality-comparable token standing for a value holder.
pub type AccountId = u128;

/// A non-negative quantity of value on a fixed-width unsigned domain.
pub type Balance = u128;

} // verus!

mod ledger;
mod laws;
mod table;

pub use ledger::approved;
pub use ledger::burned;
pub use ledger::issued;
pub use ledger::delegated;
pub use ledger::transfer_ok;
pub use ledger::transferred;
pub use ledger::Approval;
pub use ledger::Burn;
pub use ledger::Erc20;
pub use ledger::Error;
pub use ledger::Event;
pub use ledger::Transfer;
pub use laws::lemma_approve_overwrites;
pub use laws::lemma_balance_never_negative;
pub use laws::lemma_delegated_transfer_spends_allowance;
pub use laws::lemma_transfer_conserves;
