//! Reasons for which the ledger rejects a transfer.

use vstd::prelude::*;

verus! {

/// A rejected state transition. A rejected operation changes nothing.
#[derive(Clone, Copy, Debug, PartialEq, Eq, Structural)]
pub enum Error {
    /// The source account holds less than the amount to move.
    InsufficientBalance,
    /// The spender's allowance from the source account is less than the
    /// amount to move.
    InsufficientAllowance,
}

} // verus!
