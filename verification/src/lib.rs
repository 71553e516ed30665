//! A fungible-token ledger with delegated spending allowances.
//!
//! The ledger is a pure state machine: every operation takes the caller's
//! identity as an argument and hands the notification it raises back to the
//! caller, so a host only has to supply identities, relay notifications and
//! keep the state between calls.

pub mod account;
pub mod error;
pub mod events;
pub mod laws;
pub mod ledger;
pub mod model;
mod table;

pub use account::AccountId;
pub use error::Error;
pub use events::{Approval, Transfer};
pub use ledger::Erc20;
pub use model::{LedgerState, Operation};
