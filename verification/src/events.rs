//! Notifications that the ledger raises for its host to relay.

use vstd::prelude::*;
use crate::account::AccountId;

verus! {

/// `value` units moved from `from` to `to`.
///
/// Without a source the units were issued; the ledger never raises a
/// transfer without a destination.
#[derive(Clone, Copy, Debug, PartialEq, Eq)]
pub struct Transfer {
    pub from: Option<AccountId>,
    pub to: Option<AccountId>,
    pub value: u128,
}

/// `owner` set the allowance of `spender` to `value`.
#[derive(Clone, Copy, Debug, PartialEq, Eq)]
pub struct Approval {
    pub owner: AccountId,
    pub spender: AccountId,
    pub value: u128,
}

} // verus!
