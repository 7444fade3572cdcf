use crate::errors::OperationError;
use crate::instant::Instant;
use crate::validations::{
    violations, AccountRule, DuplicatedTx, HighFrequencySmallInterval, InsufficientLimit,
};
use vstd::prelude::*;

verus! {

/// What a transaction is: its merchant, its amount in minor units and its time.
pub struct TxView {
    pub merchant: Seq<char>,
    pub amount: int,
    pub time: Instant,
}

/// What an account is: the limit left, the card's status and the accepted
/// transactions in the order in which they arrived.
pub struct AccountView {
    pub available_limit: int,
    pub active_card: bool,
    pub txs: Seq<TxView>,
}

/// What an account state reports.
pub struct AccountStateView {
    pub active_card: bool,
    pub available_limit: int,
    pub violations: Seq<Seq<char>>,
}

/// The labels of a list of violations, in the same order.
pub open spec fn labels(errors: Seq<OperationError>) -> Seq<Seq<char>> {
    errors.map_values(|e: OperationError| e.label())
}

impl AccountView {
    /// The account after it has accepted `tx`.
    pub open spec fn accept(self, tx: TxView) -> AccountView {
        AccountView {
            available_limit: self.available_limit - tx.amount,
            active_card: self.active_card,
            txs: self.txs.push(tx),
        }
    }

    /// The state that reports this account together with `errors`.
    pub open spec fn state(self, errors: Seq<OperationError>) -> AccountStateView {
        AccountStateView {
            active_card: self.active_card,
            available_limit: self.available_limit,
            violations: labels(errors),
        }
    }
}

/// A card transaction.
#[derive(Debug, PartialEq)]
pub struct TX {
    pub merchant: String,
    pub amount: u32,
    pub time: Instant,
}

impl View for TX {
    type V = TxView;

    open spec fn view(&self) -> TxView {
        TxView { merchant: self.merchant@, amount: self.amount as int, time: self.time }
    }
}

impl TX {
    pub fn new(amount: u32, merchant: &str, time: Instant) -> (tx: Self)
        ensures
            tx@ == (TxView { merchant: merchant@, amount: amount as int, time }),
    {
        Self { amount, merchant: merchant.to_owned(), time }
    }

    /// The signed number of whole seconds from `another` to this transaction.
    pub fn seconds_since(&self, another: &TX) -> (r: i64)
        ensures
            r == self.time.elapsed_since(another.time),
    {
        self.time.seconds_since(&another.time)
    }
}

/// An account: the limit left, the card's status and the accepted transactions.
#[derive(Debug, PartialEq)]
pub struct Account {
    pub available_limit: u32,
    pub active_card: bool,
    pub txs: Vec<TX>,
}

impl View for Account {
    type V = AccountView;

    open spec fn view(&self) -> AccountView {
        AccountView {
            available_limit: self.available_limit as int,
            active_card: self.active_card,
            txs: self.txs@.map_values(|t: TX| t@),
        }
    }
}

impl Account {
    pub fn new(available_limit: u32, active_card: bool, txs: Vec<TX>) -> (account: Self)
        ensures
            account.available_limit == available_limit,
            account.active_card == active_card,
            account.txs == txs,
    {
        Self { available_limit, active_card, txs }
    }

    /// Checks `tx` against every rule. Where none is broken, takes the amount from
    /// the limit, appends `tx` to the history and reports the new state; otherwise
    /// leaves the account as it was and returns every violation, in rule order.
    pub fn execute_tx(&mut self, tx: TX) -> (r: Result<AccountState, Vec<OperationError>>)
        ensures
            match r {
                Ok(state) => {
                    &&& violations(old(self)@, tx@).len() == 0
                    &&& final(self)@ == old(self)@.accept(tx@)
                    &&& final(self).txs@ == old(self).txs@.push(tx)
                    &&& state@ == final(self)@.state(seq![])
                },
                Err(errors) => {
                    &&& errors@.len() > 0
                    &&& errors@ == violations(old(self)@, tx@)
                    &&& *final(self) == *old(self)
                },
            },
    {
        let mut errors: Vec<OperationError> = Vec::new();
        if let Some(e) = (InsufficientLimit {}).validate(self, &tx) {
            errors.push(e);
        }
        if let Some(e) = (HighFrequencySmallInterval {}).validate(self, &tx) {
            errors.push(e);
        }
        if let Some(e) = (DuplicatedTx {}).validate(self, &tx) {
            errors.push(e);
        }
        assert(errors@ == violations(self@, tx@));
        if !errors.is_empty() {
            return Err(errors);
        }
        self.available_limit -= tx.amount;
        self.txs.push(tx);
        assert(self@.txs == old(self)@.txs.push(tx@));
        Ok(AccountState::new(self.active_card, self.available_limit, Vec::new()))
    }

    /// The first and the last of the `window_size` most recent transactions.
    pub fn get_last_n_txs(&self, window_size: usize) -> (window: (&TX, &TX))
        requires
            1 <= window_size <= self.txs.len(),
        ensures
            *window.0 == self.txs[self.txs.len() - window_size],
            *window.1 == self.txs[self.txs.len() - 1],
    {
        let total_txs: usize = self.txs.len();
        let initial_window_tx = &self.txs[total_txs - window_size];
        let end_window_tx = &self.txs[total_txs - 1];
        (initial_window_tx, end_window_tx)
    }

    pub fn to_invalid_state(&self, errors: Vec<OperationError>) -> (state: AccountState)
        ensures
            state@ == self@.state(errors@),
    {
        AccountState::new(self.active_card, self.available_limit, errors)
    }

    pub fn to_state(&self) -> (state: AccountState)
        ensures
            state@ == self@.state(seq![]),
    {
        AccountState::new(self.active_card, self.available_limit, Vec::new())
    }

    pub fn is_inactive(&self) -> (r: bool)
        ensures
            r == !self.active_card,
    {
        !self.active_card
    }
}

/// What an operation reports: the card's status, the limit left and the labels of
/// the violations. No violation means that the operation was accepted.
#[derive(Debug, PartialEq, Eq)]
pub struct AccountState {
    active_card: bool,
    available_limit: u32,
    violations: Vec<String>,
}

impl View for AccountState {
    type V = AccountStateView;

    closed spec fn view(&self) -> AccountStateView {
        AccountStateView {
            active_card: self.active_card,
            available_limit: self.available_limit as int,
            violations: self.violations@.map_values(|s: String| s@),
        }
    }
}

impl AccountState {
    pub fn new(active_card: bool, available_limit: u32, errors: Vec<OperationError>) -> (state:
        Self)
        ensures
            state@ == (AccountStateView {
                active_card,
                available_limit: available_limit as int,
                violations: labels(errors@),
            }),
    {
        let mut violations: Vec<String> = Vec::new();
        let mut i: usize = 0;
        while i < errors.len()
            invariant
                i <= errors.len(),
                violations.len() == i,
                forall|j: int| 0 <= j < i ==> (#[trigger] violations[j])@ == errors[j].label(),
            decreases errors.len() - i,
        {
            violations.push(errors[i].to_string());
            i += 1;
        }
        assert(violations@.map_values(|s: String| s@) =~= labels(errors@));
        Self { available_limit, active_card, violations }
    }

    /// The state reported for a transaction that arrives before any account.
    pub fn not_initialized() -> (state: Self)
        ensures
            state@ == (AccountStateView {
                active_card: false,
                available_limit: 0,
                violations: seq![OperationError::AccountNotInitialized.label()],
            }),
    {
        let mut errors: Vec<OperationError> = Vec::new();
        errors.push(OperationError::AccountNotInitialized);
        assert(labels(errors@) == seq![OperationError::AccountNotInitialized.label()]);
        AccountState::new(false, 0, errors)
    }

    /// The state reported for a transaction on an account whose card is inactive.
    pub fn inactive(available_limit: u32) -> (state: Self)
        ensures
            state@ == (AccountStateView {
                active_card: false,
                available_limit: available_limit as int,
                violations: seq![OperationError::InactiveCard.label()],
            }),
    {
        let mut errors: Vec<OperationError> = Vec::new();
        errors.push(OperationError::InactiveCard);
        assert(labels(errors@) == seq![OperationError::InactiveCard.label()]);
        AccountState::new(false, available_limit, errors)
    }

    pub fn active_card(&self) -> (r: bool)
        ensures
            r == self@.active_card,
    {
        self.active_card
    }

    pub fn available_limit(&self) -> (r: u32)
        ensures
            r == self@.available_limit,
    {
        self.available_limit
    }

    /// The labels of the violations, in the order in which the rules reported them.
    pub fn violations(&self) -> (r: &Vec<String>)
        ensures
            r@.map_values(|s: String| s@) == self@.violations,
    {
        &self.violations
    }
}

} // verus!
