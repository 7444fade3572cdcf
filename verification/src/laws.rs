use crate::authorizer::{accepts, held_after_create, held_after_tx, state_on_create, state_on_tx};
use crate::errors::OperationError;
use crate::instant::Instant;
use crate::models::{labels, AccountStateView, AccountView, TxView};
use crate::operations::{held_after, held_after_all, state_on, states_of, OperationView};
use crate::validations::{
    duplicated_tx, high_frequency_small_interval, insufficient_limit, violations,
};
use vstd::prelude::*;

verus! {

/// Whether an operation can come from the input: neither the limit of an account
/// to create nor the amount of a transaction is negative.
pub open spec fn operation_wf(operation: OperationView) -> bool {
    match operation {
        OperationView::CreateAccount(account) => account.available_limit >= 0,
        OperationView::ExecuteTX(tx) => tx.amount >= 0,
    }
}

/// The place of a rule in the order of evaluation.
pub open spec fn rule_rank(e: OperationError) -> int {
    match e {
        OperationError::InsufficientLimit => 0,
        OperationError::HighFrequencySmallInterval => 1,
        OperationError::DuplicatedTx => 2,
        _ => 3,
    }
}

/// Whether `tx` breaks on `account` the rule that reports `e`.
pub open spec fn breaks(account: AccountView, tx: TxView, e: OperationError) -> bool {
    match e {
        OperationError::InsufficientLimit => insufficient_limit(account, tx),
        OperationError::HighFrequencySmallInterval => high_frequency_small_interval(account, tx),
        OperationError::DuplicatedTx => duplicated_tx(account, tx),
        _ => false,
    }
}

/// One operation never makes the limit negative.
pub proof fn law_step_keeps_limit(held: Option<AccountView>, operation: OperationView)
    requires
        held matches Some(account) ==> account.available_limit >= 0,
        operation_wf(operation),
    ensures
        held_after(held, operation) matches Some(account) ==> account.available_limit >= 0,
        state_on(held, operation).available_limit >= 0,
{
}

/// The limit is never negative: not in the account held after any sequence of
/// operations, and not in any state reported on the way.
pub proof fn law_limit_never_negative(operations: Seq<OperationView>)
    requires
        forall|i: int| 0 <= i < operations.len() ==> operation_wf(#[trigger] operations[i]),
    ensures
        held_after_all(None, operations) matches Some(account) ==> account.available_limit >= 0,
        forall|i: int|
            0 <= i < operations.len() ==> (#[trigger] states_of(operations)[i]).available_limit
                >= 0,
    decreases operations.len(),
{
    if operations.len() > 0 {
        let before = operations.drop_last();
        law_limit_never_negative(before);
        law_step_keeps_limit(held_after_all(None, before), operations.last());
        assert forall|i: int| 0 <= i < operations.len() implies (#[trigger] states_of(
            operations,
        )[i]).available_limit >= 0 by {
            if i < operations.len() - 1 {
                assert(operations.take(i) == before.take(i));
                assert(states_of(operations)[i] == states_of(before)[i]);
            } else {
                assert(operations.take(i) == before);
            }
        }
    }
}

/// A session that holds an account keeps it through every operation: the card's
/// status stays, the history only grows at its end, and the limit never grows.
pub proof fn law_held_account_stays(account: AccountView, operation: OperationView)
    requires
        operation_wf(operation),
    ensures
        held_after(Some(account), operation) matches Some(next) && next.active_card
            == account.active_card && account.txs.is_prefix_of(next.txs) && next.available_limit
            <= account.available_limit,
{
}

/// A second account changes nothing in the session: the held account keeps its
/// limit and its history. The state reports the submitted account.
pub proof fn law_second_account_changes_nothing(held: AccountView, account: AccountView)
    ensures
        held_after_create(Some(held), account) == Some(held),
        state_on_create(Some(held), account) == (AccountStateView {
            active_card: account.active_card,
            available_limit: account.available_limit,
            violations: seq![OperationError::AccountAlreadyInitialized.label()],
        }),
{
    assert(labels(seq![OperationError::AccountAlreadyInitialized])
        =~= seq![OperationError::AccountAlreadyInitialized.label()]);
}

/// A transaction that arrives before any account leaves the session empty and is
/// reported with an inactive card, no limit and the one violation.
pub proof fn law_tx_without_account(tx: TxView)
    ensures
        held_after_tx(None, tx) is None,
        state_on_tx(None, tx) == (AccountStateView {
            active_card: false,
            available_limit: 0,
            violations: seq![OperationError::AccountNotInitialized.label()],
        }),
{
}

/// A transaction on an account with an inactive card changes neither the limit nor
/// the history, whatever rules it would break, and reports the one violation.
pub proof fn law_inactive_card_changes_nothing(account: AccountView, tx: TxView)
    requires
        !account.active_card,
    ensures
        held_after_tx(Some(account), tx) == Some(account),
        state_on_tx(Some(account), tx) == (AccountStateView {
            active_card: false,
            available_limit: account.available_limit,
            violations: seq![OperationError::InactiveCard.label()],
        }),
{
}

/// A transaction is appended to the history, and its amount taken from the limit,
/// exactly when it is accepted; a rejected one leaves the account as it was.
pub proof fn law_history_grows_on_acceptance_only(account: AccountView, tx: TxView)
    ensures
        accepts(Some(account), tx) ==> held_after_tx(Some(account), tx) == Some(
            AccountView {
                available_limit: account.available_limit - tx.amount,
                active_card: account.active_card,
                txs: account.txs.push(tx),
            },
        ),
        !accepts(Some(account), tx) ==> held_after_tx(Some(account), tx) == Some(account),
        accepts(Some(account), tx) <==> state_on_tx(Some(account), tx).violations.len() == 0,
{
    let v = violations(account, tx);
    assert(labels(v).len() == v.len());
    assert(labels(Seq::<OperationError>::empty()).len() == 0);
}

/// Every rule that a transaction breaks is reported, no other is, none twice, and
/// the reports follow the order of evaluation: limit, frequency, duplicate.
pub proof fn law_all_violations_in_rule_order(account: AccountView, tx: TxView)
    ensures
        forall|e: OperationError| violations(account, tx).contains(e) <==> breaks(account, tx, e),
        forall|i: int, j: int|
            0 <= i < j < violations(account, tx).len() ==> rule_rank(violations(account, tx)[i])
                < rule_rank(violations(account, tx)[j]),
        account.active_card && violations(account, tx).len() > 0 ==> state_on_tx(
            Some(account),
            tx,
        ).violations == labels(violations(account, tx)),
{
    let v = violations(account, tx);
    assert forall|e: OperationError| v.contains(e) <==> breaks(account, tx, e) by {
        if breaks(account, tx, e) {
            if e == OperationError::InsufficientLimit {
                assert(v[0] == e);
            } else if e == OperationError::HighFrequencySmallInterval {
                if insufficient_limit(account, tx) {
                    assert(v[1] == e);
                } else {
                    assert(v[0] == e);
                }
            } else {
                assert(v[v.len() - 1] == e);
            }
        }
    }
}

/// Duplicate detection looks at the merchant and the amount alone: the time of the
/// candidate and the times in the history do not matter.
pub proof fn law_duplicate_ignores_time(account: AccountView, tx: TxView, time: Instant)
    ensures
        duplicated_tx(account, tx) == duplicated_tx(
            account,
            TxView { merchant: tx.merchant, amount: tx.amount, time },
        ),
        duplicated_tx(
            account.accept(tx),
            TxView { merchant: tx.merchant, amount: tx.amount, time },
        ),
{
    let after = account.accept(tx);
    assert(after.txs[account.txs.len() as int] == tx);
}

} // verus!
