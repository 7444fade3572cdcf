use crate::errors::OperationError;
use crate::models::{Account, AccountView, TxView, TX};
use std::fmt::Debug;
use vstd::prelude::*;

verus! {

/// The number of accepted transactions from which on the frequency rule applies.
pub const HIGH_FREQUENCY_TXS: usize = 3;

/// The longest interval, in seconds, that the frequency rule counts as small.
pub const SMALL_INTERVAL_SECS: i64 = 120;

/// The limit left does not cover the amount. An amount equal to the limit is covered.
pub open spec fn insufficient_limit(account: AccountView, tx: TxView) -> bool {
    account.available_limit < tx.amount
}

/// Some accepted transaction has the merchant and the amount of `tx`, at whatever time.
pub open spec fn duplicated_tx(account: AccountView, tx: TxView) -> bool {
    exists|i: int|
        0 <= i < account.txs.len() && (#[trigger] account.txs[i]).merchant == tx.merchant
            && account.txs[i].amount == tx.amount
}

/// Both intervals are small: `since_last` seconds from the most recent accepted
/// transaction to the candidate, and `window_span` seconds across the three most
/// recent accepted transactions. The comparison is signed.
pub open spec fn small_interval(since_last: int, window_span: int) -> bool {
    since_last <= SMALL_INTERVAL_SECS && window_span <= SMALL_INTERVAL_SECS
}

/// The account has accepted three transactions or more, the candidate comes at most
/// 120 seconds after the most recent of them, and the most recent comes at most 120
/// seconds after the third most recent.
pub open spec fn high_frequency_small_interval(account: AccountView, tx: TxView) -> bool {
    let n = account.txs.len() as int;
    &&& n >= HIGH_FREQUENCY_TXS
    &&& small_interval(
        tx.time.elapsed_since(account.txs[n - 1].time),
        account.txs[n - 1].time.elapsed_since(account.txs[n - HIGH_FREQUENCY_TXS].time),
    )
}

/// A sequence of the violation, if there is one.
pub open spec fn reported(violation: Option<OperationError>) -> Seq<OperationError> {
    match violation {
        Some(e) => seq![e],
        None => seq![],
    }
}

/// Every violation that `tx` would commit on `account`, in the order in which the
/// rules are evaluated: limit, frequency, duplicate.
pub open spec fn violations(account: AccountView, tx: TxView) -> Seq<OperationError> {
    reported((InsufficientLimit {}).violation(account, tx)) + reported(
        (HighFrequencySmallInterval {}).violation(account, tx),
    ) + reported((DuplicatedTx {}).violation(account, tx))
}

/// Whether two measured intervals, in seconds, are both small.
pub fn is_small_interval(since_last: i64, window_span: i64) -> (r: bool)
    ensures
        r == small_interval(since_last as int, window_span as int),
{
    since_last <= SMALL_INTERVAL_SECS && window_span <= SMALL_INTERVAL_SECS
}

/// A rule that inspects an account and a candidate transaction and reports at most
/// one violation.
pub trait AccountRule: Debug {
    /// The violation that the rule finds, if any.
    spec fn violation(&self, account: AccountView, tx: TxView) -> Option<OperationError>;

    /// Checks `tx` against `account` and returns the violation, if there is one.
    fn validate(&self, account: &Account, tx: &TX) -> (r: Option<OperationError>)
        ensures
            r == self.violation(account@, tx@),
    ;
}

#[derive(Debug)]
pub struct DuplicatedTx {}

impl AccountRule for DuplicatedTx {
    open spec fn violation(&self, account: AccountView, tx: TxView) -> Option<OperationError> {
        if duplicated_tx(account, tx) {
            Some(OperationError::DuplicatedTx)
        } else {
            None
        }
    }

    fn validate(&self, account: &Account, tx: &TX) -> (r: Option<OperationError>) {
        let mut i: usize = 0;
        while i < account.txs.len()
            invariant
                i <= account.txs.len(),
                forall|j: int|
                    0 <= j < i ==> !((#[trigger] account@.txs[j]).merchant == tx@.merchant
                        && account@.txs[j].amount == tx@.amount),
            decreases account.txs.len() - i,
        {
            let t = &account.txs[i];
            if t.amount == tx.amount && t.merchant == tx.merchant {
                assert(account@.txs[i as int] == t@);
                return Some(OperationError::DuplicatedTx);
            }
            assert(account@.txs[i as int] == t@);
            i += 1;
        }
        None
    }
}

#[derive(Debug)]
pub struct InsufficientLimit {}

impl AccountRule for InsufficientLimit {
    open spec fn violation(&self, account: AccountView, tx: TxView) -> Option<OperationError> {
        if insufficient_limit(account, tx) {
            Some(OperationError::InsufficientLimit)
        } else {
            None
        }
    }

    fn validate(&self, account: &Account, tx: &TX) -> (r: Option<OperationError>) {
        if account.available_limit < tx.amount {
            return Some(OperationError::InsufficientLimit);
        }
        None
    }
}

#[derive(Debug)]
pub struct HighFrequencySmallInterval {}

impl AccountRule for HighFrequencySmallInterval {
    open spec fn violation(&self, account: AccountView, tx: TxView) -> Option<OperationError> {
        if high_frequency_small_interval(account, tx) {
            Some(OperationError::HighFrequencySmallInterval)
        } else {
            None
        }
    }

    fn validate(&self, account: &Account, tx: &TX) -> (r: Option<OperationError>) {
        let total_txs: usize = account.txs.len();
        if total_txs >= HIGH_FREQUENCY_TXS {
            let (left_tx, right_tx) = account.get_last_n_txs(HIGH_FREQUENCY_TXS);
            assert(account@.txs[total_txs - 1] == right_tx@);
            assert(account@.txs[total_txs - HIGH_FREQUENCY_TXS] == left_tx@);
            if is_small_interval(tx.seconds_since(right_tx), right_tx.seconds_since(left_tx)) {
                return Some(OperationError::HighFrequencySmallInterval);
            }
        }
        None
    }
}

} // verus!
