//! The mathematical model of the ledger.
//!
//! Amounts are natural numbers and are kept in sparse maps: a key without an
//! entry stands for zero, and an entry never holds zero.

use vstd::prelude::*;
use crate::account::AccountId;

verus! {

/// The amount recorded for `key`; zero where there is no entry.
pub open spec fn amount_at<K>(amounts: Map<K, nat>, key: K) -> nat {
    if amounts.contains_key(key) {
        amounts[key]
    } else {
        0
    }
}

/// `amounts` with the amount of `key` set to `amount`, whatever it was.
pub open spec fn with_amount<K>(amounts: Map<K, nat>, key: K, amount: nat) -> Map<K, nat> {
    if amount == 0 {
        amounts.remove(key)
    } else {
        amounts.insert(key, amount)
    }
}

/// Finitely many entries, none of them zero.
pub open spec fn is_sparse<K>(amounts: Map<K, nat>) -> bool {
    &&& amounts.dom().finite()
    &&& forall|key: K| amounts.contains_key(key) ==> #[trigger] amounts[key] > 0
}

/// The sum of all amounts in a finite map.
pub open spec fn total<K>(amounts: Map<K, nat>) -> nat
    decreases amounts.dom().len(),
    when amounts.dom().finite()
{
    if amounts.dom().len() == 0 {
        0
    } else {
        let key = amounts.dom().choose();
        amounts[key] + total(amounts.remove(key))
    }
}

/// The sum does not depend on the order in which the entries are taken.
pub proof fn lemma_total_remove<K>(amounts: Map<K, nat>, key: K)
    requires
        amounts.dom().finite(),
        amounts.contains_key(key),
    ensures
        total(amounts) == amounts[key] + total(amounts.remove(key)),
    decreases amounts.dom().len(),
{
    let first = amounts.dom().choose();
    if first != key {
        lemma_total_remove(amounts.remove(first), key);
        lemma_total_remove(amounts.remove(key), first);
        assert(amounts.remove(first).remove(key) =~= amounts.remove(key).remove(first));
    }
}

/// Setting one amount changes the sum by the difference of the new amount
/// and the old one.
pub proof fn lemma_total_with_amount<K>(amounts: Map<K, nat>, key: K, amount: nat)
    requires
        amounts.dom().finite(),
    ensures
        with_amount(amounts, key, amount).dom().finite(),
        total(with_amount(amounts, key, amount)) + amount_at(amounts, key) == total(amounts)
            + amount,
{
    let updated = with_amount(amounts, key, amount);
    if amounts.contains_key(key) {
        lemma_total_remove(amounts, key);
    } else {
        assert(amounts.remove(key) =~= amounts);
    }
    if amount != 0 {
        lemma_total_remove(updated, key);
        assert(updated.remove(key) =~= amounts.remove(key));
    }
}

/// No single amount exceeds the sum.
pub proof fn lemma_amount_le_total<K>(amounts: Map<K, nat>, key: K)
    requires
        amounts.dom().finite(),
    ensures
        amount_at(amounts, key) <= total(amounts),
{
    if amounts.contains_key(key) {
        lemma_total_remove(amounts, key);
    }
}

/// What a ledger holds: the supply, fixed when the ledger is created, the
/// balance of each account, and for each pair of an owner and a spender what the
/// spender may still move out of the owner's balance.
#[verifier::ext_equal]
pub struct LedgerState {
    pub total_supply: nat,
    pub balances: Map<AccountId, nat>,
    pub allowances: Map<(AccountId, AccountId), nat>,
}

impl LedgerState {
    /// The balance of `owner`; zero for an account that never held anything.
    pub open spec fn balance_of(self, owner: AccountId) -> nat {
        amount_at(self.balances, owner)
    }

    /// What `spender` may still move out of the balance of `owner`.
    pub open spec fn allowance(self, owner: AccountId, spender: AccountId) -> nat {
        amount_at(self.allowances, (owner, spender))
    }

    /// The balances add up to the supply, and both maps are sparse.
    pub open spec fn inv(self) -> bool {
        &&& is_sparse(self.balances)
        &&& is_sparse(self.allowances)
        &&& total(self.balances) == self.total_supply
    }

    /// A new ledger: the whole supply belongs to `creator`, nothing is
    /// approved.
    pub open spec fn genesis(initial_supply: nat, creator: AccountId) -> LedgerState {
        LedgerState {
            total_supply: initial_supply,
            balances: with_amount(Map::empty(), creator, initial_supply),
            allowances: Map::empty(),
        }
    }

    /// The balance of `who` once `value` has moved from `from` to `to`.
    pub open spec fn balance_after_transfer(
        self,
        from: AccountId,
        to: AccountId,
        value: nat,
        who: AccountId,
    ) -> nat {
        let debited = if who == from {
            (self.balance_of(who) - value) as nat
        } else {
            self.balance_of(who)
        };
        if who == to {
            debited + value
        } else {
            debited
        }
    }

    /// The ledger once `value` has moved from `from` to `to`. It is meant for
    /// a `value` that the balance of `from` covers.
    pub open spec fn transfer(self, from: AccountId, to: AccountId, value: nat) -> LedgerState {
        LedgerState {
            balances: Map::new(
                |who: AccountId| self.balance_after_transfer(from, to, value, who) > 0,
                |who: AccountId| self.balance_after_transfer(from, to, value, who),
            ),
            ..self
        }
    }

    /// The ledger once `owner` has set the allowance of `spender` to `value`.
    pub open spec fn approve(self, owner: AccountId, spender: AccountId, value: nat) -> LedgerState {
        LedgerState { allowances: with_amount(self.allowances, (owner, spender), value), ..self }
    }

    /// The ledger once `spender` has moved `value` from `from` to `to` on the
    /// strength of its allowance, which shrinks by `value`. It is meant for a
    /// `value` that both the allowance and the balance of `from` cover.
    pub open spec fn transfer_from(
        self,
        spender: AccountId,
        from: AccountId,
        to: AccountId,
        value: nat,
    ) -> LedgerState {
        LedgerState {
            allowances: with_amount(
                self.allowances,
                (from, spender),
                (self.allowance(from, spender) - value) as nat,
            ),
            ..self.transfer(from, to, value)
        }
    }

    /// Moving an amount is the same as taking it from the source and then
    /// adding it to the destination.
    pub proof fn lemma_transfer_in_two_steps(self, from: AccountId, to: AccountId, value: nat)
        requires
            is_sparse(self.balances),
            self.balance_of(from) >= value,
        ensures
            ({
                let debited = with_amount(
                    self.balances,
                    from,
                    (self.balance_of(from) - value) as nat,
                );
                self.transfer(from, to, value).balances == with_amount(
                    debited,
                    to,
                    amount_at(debited, to) + value,
                )
            }),
    {
        let debited = with_amount(self.balances, from, (self.balance_of(from) - value) as nat);
        let credited = with_amount(debited, to, amount_at(debited, to) + value);
        assert(self.transfer(from, to, value).balances =~= credited);
    }
}

/// A request to change a ledger, with the identity of the account that
/// makes it.
pub enum Operation {
    /// `caller` moves `value` out of its own balance to `to`.
    Transfer { caller: AccountId, to: AccountId, value: nat },
    /// `caller` sets the allowance of `spender` to `value`.
    Approve { caller: AccountId, spender: AccountId, value: nat },
    /// `caller` moves `value` from `from` to `to` on the strength of its
    /// allowance.
    TransferFrom { caller: AccountId, from: AccountId, to: AccountId, value: nat },
}

impl LedgerState {
    /// Whether the ledger accepts `operation`.
    pub open spec fn accepts(self, operation: Operation) -> bool {
        match operation {
            Operation::Transfer { caller, to, value } => self.balance_of(caller) >= value,
            Operation::Approve { caller, spender, value } => true,
            Operation::TransferFrom { caller, from, to, value } => {
                &&& self.allowance(from, caller) >= value
                &&& self.balance_of(from) >= value
            },
        }
    }

    /// The ledger after `operation`: a rejected operation changes nothing.
    pub open spec fn apply(self, operation: Operation) -> LedgerState {
        if !self.accepts(operation) {
            self
        } else {
            match operation {
                Operation::Transfer { caller, to, value } => self.transfer(caller, to, value),
                Operation::Approve { caller, spender, value } => self.approve(
                    caller,
                    spender,
                    value,
                ),
                Operation::TransferFrom { caller, from, to, value } => self.transfer_from(
                    caller,
                    from,
                    to,
                    value,
                ),
            }
        }
    }

    /// The ledger after `operations`, applied in their order.
    pub open spec fn run(self, operations: Seq<Operation>) -> LedgerState
        decreases operations.len(),
    {
        if operations.len() == 0 {
            self
        } else {
            self.run(operations.drop_last()).apply(operations.last())
        }
    }
}

} // verus!
