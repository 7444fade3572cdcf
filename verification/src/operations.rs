use crate::authorizer::{
    held_after_create, held_after_tx, state_on_create, state_on_tx, Authorizer,
};
use crate::instant::Instant;
use crate::models::{Account, AccountState, AccountStateView, AccountView, TxView, TX};
use vstd::prelude::*;

verus! {

/// The parameters of an account to create.
#[derive(Debug)]
pub struct AccountData {
    pub available_limit: u32,
    pub active_card: bool,
}

impl View for AccountData {
    type V = AccountView;

    /// The account that the parameters describe: one without history.
    open spec fn view(&self) -> AccountView {
        AccountView {
            available_limit: self.available_limit as int,
            active_card: self.active_card,
            txs: seq![],
        }
    }
}

impl AccountData {
    pub fn to_account(self) -> (account: Account)
        ensures
            account@ == self@,
    {
        let account = Account::new(self.available_limit, self.active_card, Vec::new());
        assert(account@.txs =~= seq![]);
        account
    }
}

/// The parameters of a transaction to execute.
#[derive(Debug)]
pub struct TxData {
    pub merchant: String,
    pub amount: u32,
    pub time: Instant,
}

impl View for TxData {
    type V = TxView;

    open spec fn view(&self) -> TxView {
        TxView { merchant: self.merchant@, amount: self.amount as int, time: self.time }
    }
}

impl TxData {
    pub fn to_tx(self) -> (tx: TX)
        ensures
            tx@ == self@,
    {
        TX { amount: self.amount, merchant: self.merchant, time: self.time }
    }
}

/// What an operation is: an account to create or a transaction to execute.
pub enum OperationView {
    CreateAccount(AccountView),
    ExecuteTX(TxView),
}

/// One operation of the input stream.
#[derive(Debug)]
pub enum FileOperation {
    CreateAccount(AccountData),
    ExecuteTX(TxData),
}

impl View for FileOperation {
    type V = OperationView;

    open spec fn view(&self) -> OperationView {
        match self {
            FileOperation::CreateAccount(account) => OperationView::CreateAccount(account@),
            FileOperation::ExecuteTX(tx) => OperationView::ExecuteTX(tx@),
        }
    }
}

/// The account that a session holds after one operation.
pub open spec fn held_after(held: Option<AccountView>, operation: OperationView) -> Option<
    AccountView,
> {
    match operation {
        OperationView::CreateAccount(account) => held_after_create(held, account),
        OperationView::ExecuteTX(tx) => held_after_tx(held, tx),
    }
}

/// What a session reports for one operation.
pub open spec fn state_on(held: Option<AccountView>, operation: OperationView) -> AccountStateView {
    match operation {
        OperationView::CreateAccount(account) => state_on_create(held, account),
        OperationView::ExecuteTX(tx) => state_on_tx(held, tx),
    }
}

/// The account that a session holds after a sequence of operations, applied in order.
pub open spec fn held_after_all(
    held: Option<AccountView>,
    operations: Seq<OperationView>,
) -> Option<AccountView>
    decreases operations.len(),
{
    if operations.len() == 0 {
        held
    } else {
        held_after(held_after_all(held, operations.drop_last()), operations.last())
    }
}

/// What a fresh session reports for each of a sequence of operations, applied in order.
pub open spec fn states_of(operations: Seq<OperationView>) -> Seq<AccountStateView> {
    Seq::new(
        operations.len(),
        |i: int| state_on(held_after_all(None, operations.take(i)), operations[i]),
    )
}

impl Authorizer {
    /// Applies one operation to the session.
    pub fn apply(&mut self, operation: FileOperation) -> (state: AccountState)
        ensures
            final(self)@ == held_after(old(self)@, operation@),
            state@ == state_on(old(self)@, operation@),
    {
        match operation {
            FileOperation::CreateAccount(account) => self.create_account(account.to_account()),
            FileOperation::ExecuteTX(tx) => self.register_tx(tx.to_tx()),
        }
    }
}

/// Applies the operations in order to a fresh session and collects the state
/// reported for each.
pub fn apply_operations(operations: Vec<FileOperation>) -> (account_states: Vec<AccountState>)
    ensures
        account_states@.map_values(|s: AccountState| s@) == states_of(
            operations@.map_values(|o: FileOperation| o@),
        ),
{
    let ghost ops = operations@.map_values(|o: FileOperation| o@);
    let mut authorizer = Authorizer::new();
    let mut account_states: Vec<AccountState> = Vec::new();
    for operation in it: operations
        invariant
            it.seq().map_values(|o: FileOperation| o@) == ops,
            account_states.len() == it.index(),
            authorizer@ == held_after_all(None, ops.take(it.index() as int)),
            forall|j: int|
                0 <= j < it.index() ==> (#[trigger] account_states[j])@ == state_on(
                    held_after_all(None, ops.take(j)),
                    ops[j],
                ),
    {
        let ghost i = it.index() as int;
        assert(ops.take(i + 1).drop_last() == ops.take(i));
        assert(ops.take(i + 1).last() == ops[i]);
        let account_state = authorizer.apply(operation);
        account_states.push(account_state);
    }
    assert(account_states@.map_values(|s: AccountState| s@) =~= states_of(ops));
    account_states
}

} // verus!
