//! What holds of every ledger, proved of the model that the operations'
//! contracts speak of.

use vstd::prelude::*;
use crate::account::AccountId;
use crate::model::{
    amount_at,
    is_sparse,
    lemma_amount_le_total,
    lemma_total_with_amount,
    total,
    with_amount,
    LedgerState,
    Operation,
};

verus! {

/// A new ledger satisfies the invariant: its balances add up to the supply.
pub proof fn lemma_genesis_inv(initial_supply: nat, creator: AccountId)
    ensures
        LedgerState::genesis(initial_supply, creator).inv(),
        LedgerState::genesis(initial_supply, creator).total_supply == initial_supply,
{
    lemma_total_with_amount(Map::<AccountId, nat>::empty(), creator, initial_supply);
}

/// A transfer that the balance covers keeps the invariant.
pub proof fn lemma_transfer_inv(state: LedgerState, from: AccountId, to: AccountId, value: nat)
    requires
        state.inv(),
        state.balance_of(from) >= value,
    ensures
        state.transfer(from, to, value).inv(),
{
    let debited = with_amount(state.balances, from, (state.balance_of(from) - value) as nat);
    lemma_total_with_amount(state.balances, from, (state.balance_of(from) - value) as nat);
    lemma_total_with_amount(debited, to, amount_at(debited, to) + value);
    state.lemma_transfer_in_two_steps(from, to, value);
}

/// An approval keeps the invariant.
pub proof fn lemma_approve_inv(
    state: LedgerState,
    owner: AccountId,
    spender: AccountId,
    value: nat,
)
    requires
        state.inv(),
    ensures
        state.approve(owner, spender, value).inv(),
{
}

/// A delegated transfer that the allowance and the balance cover keeps the
/// invariant.
pub proof fn lemma_transfer_from_inv(
    state: LedgerState,
    spender: AccountId,
    from: AccountId,
    to: AccountId,
    value: nat,
)
    requires
        state.inv(),
        state.allowance(from, spender) >= value,
        state.balance_of(from) >= value,
    ensures
        state.transfer_from(spender, from, to, value).inv(),
{
    lemma_transfer_inv(state, from, to, value);
}

/// Conservation of the supply: in every state that a ledger can reach from
/// its creation, by any operations in any order, accepted or rejected, the
/// balances add up to the supply, and the supply is the one it was created
/// with.
pub proof fn lemma_reachable_states_conserve_supply(
    initial_supply: nat,
    creator: AccountId,
    operations: Seq<Operation>,
)
    ensures
        LedgerState::genesis(initial_supply, creator).run(operations).inv(),
        total(LedgerState::genesis(initial_supply, creator).run(operations).balances)
            == initial_supply,
        LedgerState::genesis(initial_supply, creator).run(operations).total_supply
            == initial_supply,
    decreases operations.len(),
{
    let start = LedgerState::genesis(initial_supply, creator);
    if operations.len() == 0 {
        lemma_genesis_inv(initial_supply, creator);
    } else {
        lemma_reachable_states_conserve_supply(initial_supply, creator, operations.drop_last());
        lemma_apply_inv(start.run(operations.drop_last()), operations.last());
    }
}

/// Every operation, accepted or rejected, keeps the invariant and the supply.
pub proof fn lemma_apply_inv(state: LedgerState, operation: Operation)
    requires
        state.inv(),
    ensures
        state.apply(operation).inv(),
        state.apply(operation).total_supply == state.total_supply,
{
    if state.accepts(operation) {
        match operation {
            Operation::Transfer { caller, to, value } => {
                lemma_transfer_inv(state, caller, to, value);
            },
            Operation::Approve { caller, spender, value } => {
                lemma_approve_inv(state, caller, spender, value);
            },
            Operation::TransferFrom { caller, from, to, value } => {
                lemma_transfer_from_inv(state, caller, from, to, value);
            },
        }
    }
}

/// No balance and no allowance is negative, and no balance exceeds the
/// supply.
pub proof fn lemma_amounts_in_range(state: LedgerState, owner: AccountId, spender: AccountId)
    requires
        state.inv(),
    ensures
        0 <= state.balance_of(owner) <= state.total_supply,
        0 <= state.allowance(owner, spender),
{
    lemma_amount_le_total(state.balances, owner);
}

/// An approval replaces the allowance, it does not add to it: after two
/// approvals for the same owner and spender the ledger is as if only the
/// second had been made, and the allowance is the second value.
pub proof fn lemma_approve_overwrites(
    state: LedgerState,
    owner: AccountId,
    spender: AccountId,
    first: nat,
    second: nat,
)
    ensures
        state.approve(owner, spender, first).approve(owner, spender, second) == state.approve(
            owner,
            spender,
            second,
        ),
        state.approve(owner, spender, first).approve(owner, spender, second).allowance(
            owner,
            spender,
        ) == second,
{
    let twice = state.approve(owner, spender, first).approve(owner, spender, second);
    let once = state.approve(owner, spender, second);
    assert(twice.allowances =~= once.allowances);
}

/// An approval changes the allowance of one owner and spender and nothing
/// else.
pub proof fn lemma_approve_sets_one_allowance(
    state: LedgerState,
    owner: AccountId,
    spender: AccountId,
    value: nat,
    other_owner: AccountId,
    other_spender: AccountId,
)
    ensures
        state.approve(owner, spender, value).allowance(owner, spender) == value,
        (other_owner, other_spender) != (owner, spender) ==> state.approve(
            owner,
            spender,
            value,
        ).allowance(other_owner, other_spender) == state.allowance(other_owner, other_spender),
        state.approve(owner, spender, value).balances == state.balances,
        state.approve(owner, spender, value).total_supply == state.total_supply,
{
}

/// Conservation in a transfer between two accounts: the source loses exactly
/// `value`, the destination gains exactly `value`, every other balance, every
/// allowance and the supply stay as they were.
pub proof fn lemma_transfer_moves_value(
    state: LedgerState,
    from: AccountId,
    to: AccountId,
    value: nat,
    other: AccountId,
)
    requires
        state.balance_of(from) >= value,
        from != to,
    ensures
        state.transfer(from, to, value).balance_of(from) == state.balance_of(from) - value,
        state.transfer(from, to, value).balance_of(to) == state.balance_of(to) + value,
        other != from && other != to ==> state.transfer(from, to, value).balance_of(other)
            == state.balance_of(other),
        state.transfer(from, to, value).total_supply == state.total_supply,
        state.transfer(from, to, value).allowances == state.allowances,
{
}

/// Conservation in a delegated transfer between two accounts: the balances
/// move as in a transfer, and the allowance that authorised it shrinks by
/// exactly `value`; no other allowance changes.
pub proof fn lemma_transfer_from_moves_value(
    state: LedgerState,
    spender: AccountId,
    from: AccountId,
    to: AccountId,
    value: nat,
    other: AccountId,
    other_spender: AccountId,
)
    requires
        state.allowance(from, spender) >= value,
        state.balance_of(from) >= value,
        from != to,
    ensures
        state.transfer_from(spender, from, to, value).balance_of(from) == state.balance_of(from)
            - value,
        state.transfer_from(spender, from, to, value).balance_of(to) == state.balance_of(to)
            + value,
        other != from && other != to ==> state.transfer_from(
            spender,
            from,
            to,
            value,
        ).balance_of(other) == state.balance_of(other),
        state.transfer_from(spender, from, to, value).total_supply == state.total_supply,
        state.transfer_from(spender, from, to, value).allowance(from, spender) == state.allowance(
            from,
            spender,
        ) - value,
        (other, other_spender) != (from, spender) ==> state.transfer_from(
            spender,
            from,
            to,
            value,
        ).allowance(other, other_spender) == state.allowance(other, other_spender),
{
}

/// A transfer from an account to itself, and a transfer of nothing, leave
/// the ledger as it was.
pub proof fn lemma_transfer_without_effect(
    state: LedgerState,
    from: AccountId,
    to: AccountId,
    value: nat,
)
    requires
        is_sparse(state.balances),
        state.balance_of(from) >= value,
        from == to || value == 0,
    ensures
        state.transfer(from, to, value) == state,
{
    assert(state.transfer(from, to, value).balances =~= state.balances);
}

/// A rejected operation leaves the ledger as it was.
pub proof fn lemma_rejected_changes_nothing(state: LedgerState, operation: Operation)
    requires
        !state.accepts(operation),
    ensures
        state.apply(operation) == state,
{
}

} // verus!
