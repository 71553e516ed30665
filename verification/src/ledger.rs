//! The ledger and its operations.

use vstd::prelude::*;
use crate::account::AccountId;
use crate::error::Error;
use crate::events::{Approval, Transfer};
use crate::model::{
    lemma_amount_le_total,
    lemma_total_with_amount,
    with_amount,
    LedgerState,
    Operation,
};
use crate::table::Table;

verus! {

/// A ledger of a token with a fixed supply.
///
/// Its view is the [`LedgerState`] that it holds. Every ledger that `new` and
/// the operations hand out satisfies [`LedgerState::inv`]; `transfer` and
/// `transfer_from` rely on it.
pub struct Erc20 {
    /// Total token supply.
    total_supply: u128,
    /// What each account owns.
    balances: Table<AccountId>,
    /// What a spender may still move out of an owner's balance, by owner and
    /// spender.
    allowances: Table<(AccountId, AccountId)>,
}

impl View for Erc20 {
    type V = LedgerState;

    closed spec fn view(&self) -> LedgerState {
        LedgerState {
            total_supply: self.total_supply as nat,
            balances: self.balances@,
            allowances: self.allowances@,
        }
    }
}

impl Erc20 {
    /// Creates a ledger whose whole supply belongs to `creator`, and reports
    /// the issue as a transfer without a source.
    pub fn new(initial_supply: u128, creator: AccountId) -> (created: (Erc20, Transfer))
        ensures
            created.0@ == LedgerState::genesis(initial_supply as nat, creator),
            created.0@.inv(),
            created.1 == (Transfer { from: None, to: Some(creator), value: initial_supply }),
    {
        let mut balances = Table::new();
        balances.set(creator, initial_supply);
        let ledger = Erc20 { total_supply: initial_supply, balances, allowances: Table::new() };
        proof {
            lemma_total_with_amount(Map::<AccountId, nat>::empty(), creator, initial_supply as nat);
            ledger.balances.lemma_view_sparse();
            ledger.allowances.lemma_view_sparse();
        }
        (ledger, Transfer { from: None, to: Some(creator), value: initial_supply })
    }

    /// Returns the total token supply.
    pub fn total_supply(&self) -> (supply: u128)
        ensures
            supply == self@.total_supply,
    {
        self.total_supply
    }

    /// Returns the balance of `owner`: zero for an account that never held
    /// anything.
    pub fn balance_of(&self, owner: AccountId) -> (balance: u128)
        ensures
            balance == self@.balance_of(owner),
    {
        self.balance_of_impl(&owner)
    }

    fn balance_of_impl(&self, owner: &AccountId) -> (balance: u128)
        ensures
            balance == self@.balance_of(*owner),
    {
        self.balances.get(owner)
    }

    /// Moves `value` from the balance of `caller` to that of `to` and reports
    /// the transfer, unless the balance of `caller` does not cover `value`:
    /// then nothing changes.
    pub fn transfer(&mut self, caller: AccountId, to: AccountId, value: u128) -> (outcome: Result<
        Transfer,
        Error,
    >)
        requires
            old(self)@.inv(),
        ensures
            final(self)@.inv(),
            final(self)@ == old(self)@.apply(
                Operation::Transfer { caller, to, value: value as nat },
            ),
            outcome == (if old(self)@.balance_of(caller) >= value {
                Ok::<Transfer, Error>(Transfer { from: Some(caller), to: Some(to), value })
            } else {
                Err::<Transfer, Error>(Error::InsufficientBalance)
            }),
            outcome is Err ==> *final(self) == *old(self),
    {
        self.transfer_from_to(&caller, &to, value)
    }

    /// The step that `transfer` and `transfer_from` share: it moves `value`
    /// from `from` to `to` if the balance of `from` covers it.
    fn transfer_from_to(&mut self, from: &AccountId, to: &AccountId, value: u128) -> (outcome:
        Result<Transfer, Error>)
        requires
            old(self)@.inv(),
        ensures
            final(self)@.inv(),
            final(self)@ == old(self)@.apply(
                Operation::Transfer { caller: *from, to: *to, value: value as nat },
            ),
            outcome == (if old(self)@.balance_of(*from) >= value {
                Ok::<Transfer, Error>(Transfer { from: Some(*from), to: Some(*to), value })
            } else {
                Err::<Transfer, Error>(Error::InsufficientBalance)
            }),
            outcome is Err ==> *final(self) == *old(self),
            final(self).allowances == old(self).allowances,
    {
        let from_balance = self.balance_of_impl(from);
        if from_balance < value {
            return Err(Error::InsufficientBalance);
        }
        let ghost before = self@;
        self.balances.set(*from, from_balance - value);
        let to_balance = self.balances.get(to);
        proof {
            lemma_total_with_amount(before.balances, *from, (from_balance - value) as nat);
            lemma_amount_le_total(self.balances@, *to);
        }
        self.balances.set(*to, to_balance + value);
        proof {
            let debited = with_amount(before.balances, *from, (from_balance - value) as nat);
            lemma_total_with_amount(debited, *to, (to_balance + value) as nat);
            before.lemma_transfer_in_two_steps(*from, *to, value as nat);
            self.balances.lemma_view_sparse();
        }
        Ok(Transfer { from: Some(*from), to: Some(*to), value })
    }

    /// Sets what `spender` may move out of the balance of `caller` to `value`,
    /// whatever it was, and reports the approval. It always succeeds: the
    /// balance of `caller` plays no part.
    pub fn approve(&mut self, caller: AccountId, spender: AccountId, value: u128) -> (outcome:
        Result<Approval, Error>)
        ensures
            old(self)@.inv() ==> final(self)@.inv(),
            final(self)@ == old(self)@.apply(
                Operation::Approve { caller, spender, value: value as nat },
            ),
            outcome == Ok::<Approval, Error>(Approval { owner: caller, spender, value }),
    {
        self.allowances.set((caller, spender), value);
        proof {
            self.allowances.lemma_view_sparse();
        }
        Ok(Approval { owner: caller, spender, value })
    }

    /// Returns what `spender` may still move out of the balance of `owner`:
    /// zero where nothing was approved.
    pub fn allowance(&self, owner: AccountId, spender: AccountId) -> (allowance: u128)
        ensures
            allowance == self@.allowance(owner, spender),
    {
        self.allowance_impl(&owner, &spender)
    }

    fn allowance_impl(&self, owner: &AccountId, spender: &AccountId) -> (allowance: u128)
        ensures
            allowance == self@.allowance(*owner, *spender),
    {
        self.allowances.get(&(*owner, *spender))
    }

    /// Moves `value` from the balance of `from` to that of `to` on behalf of
    /// `caller`, whose allowance from `from` shrinks by `value`, and reports
    /// the transfer. Where the allowance or the balance does not cover
    /// `value`, nothing changes; the allowance is looked at first.
    pub fn transfer_from(
        &mut self,
        caller: AccountId,
        from: AccountId,
        to: AccountId,
        value: u128,
    ) -> (outcome: Result<Transfer, Error>)
        requires
            old(self)@.inv(),
        ensures
            final(self)@.inv(),
            final(self)@ == old(self)@.apply(
                Operation::TransferFrom { caller, from, to, value: value as nat },
            ),
            outcome == (if old(self)@.allowance(from, caller) < value {
                Err::<Transfer, Error>(Error::InsufficientAllowance)
            } else if old(self)@.balance_of(from) < value {
                Err::<Transfer, Error>(Error::InsufficientBalance)
            } else {
                Ok::<Transfer, Error>(Transfer { from: Some(from), to: Some(to), value })
            }),
            outcome is Err ==> *final(self) == *old(self),
    {
        let allowance = self.allowance_impl(&from, &caller);
        if allowance < value {
            return Err(Error::InsufficientAllowance);
        }
        let moved = self.transfer_from_to(&from, &to, value)?;
        self.allowances.set((from, caller), allowance - value);
        proof {
            self.allowances.lemma_view_sparse();
        }
        Ok(moved)
    }
}

} // verus!
