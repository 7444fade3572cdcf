use crate::errors::OperationError;
use crate::models::{Account, AccountState, AccountStateView, AccountView, TxView, TX};
use crate::validations::violations;
use vstd::prelude::*;

verus! {

/// The account that a session holds after an account was submitted to it: the one
/// it held before, or else the submitted one.
pub open spec fn held_after_create(held: Option<AccountView>, account: AccountView) -> Option<
    AccountView,
> {
    if held is Some {
        held
    } else {
        Some(account)
    }
}

/// What a session reports when an account is submitted to it: the submitted
/// account's own limit and status, with a violation where an account is held already.
pub open spec fn state_on_create(
    held: Option<AccountView>,
    account: AccountView,
) -> AccountStateView {
    if held is Some {
        account.state(seq![OperationError::AccountAlreadyInitialized])
    } else {
        account.state(seq![])
    }
}

/// Whether a session accepts `tx`: it holds an account, the card is active and no
/// rule is broken.
pub open spec fn accepts(held: Option<AccountView>, tx: TxView) -> bool {
    held matches Some(account) && account.active_card && violations(account, tx).len() == 0
}

/// The account that a session holds after `tx` was submitted to it.
pub open spec fn held_after_tx(held: Option<AccountView>, tx: TxView) -> Option<AccountView> {
    if accepts(held, tx) {
        Some(held->0.accept(tx))
    } else {
        held
    }
}

/// What a session reports when `tx` is submitted to it.
pub open spec fn state_on_tx(held: Option<AccountView>, tx: TxView) -> AccountStateView {
    match held {
        None => AccountStateView {
            active_card: false,
            available_limit: 0,
            violations: seq![OperationError::AccountNotInitialized.label()],
        },
        Some(account) => if !account.active_card {
            AccountStateView {
                active_card: false,
                available_limit: account.available_limit,
                violations: seq![OperationError::InactiveCard.label()],
            }
        } else if violations(account, tx).len() == 0 {
            account.accept(tx).state(seq![])
        } else {
            account.state(violations(account, tx))
        },
    }
}

/// A session over at most one account. Once an account is held it is never
/// replaced.
#[derive(Debug)]
pub struct Authorizer {
    account: Option<Account>,
}

impl View for Authorizer {
    type V = Option<AccountView>;

    closed spec fn view(&self) -> Option<AccountView> {
        match self.account {
            Some(account) => Some(account@),
            None => None,
        }
    }
}

impl Authorizer {
    pub fn new() -> (authorizer: Self)
        ensures
            authorizer@ is None,
    {
        Self { account: Option::None }
    }

    /// The account held, if any.
    pub fn account(&self) -> (held: Option<&Account>)
        ensures
            held is Some <==> self@ is Some,
            held matches Some(account) ==> self@ == Some(account@),
    {
        self.account.as_ref()
    }

    /// Adopts `account` where none is held. Otherwise leaves the held account as
    /// it is and reports the submitted one with a violation.
    pub fn create_account(&mut self, account: Account) -> (state: AccountState)
        ensures
            final(self)@ == held_after_create(old(self)@, account@),
            state@ == state_on_create(old(self)@, account@),
            old(self)@ is Some ==> *final(self) == *old(self),
    {
        if self.account.is_some() {
            let mut errors: Vec<OperationError> = Vec::new();
            errors.push(OperationError::AccountAlreadyInitialized);
            assert(errors@ == seq![OperationError::AccountAlreadyInitialized]);
            return account.to_invalid_state(errors);
        }
        let state = account.to_state();
        self.account = Option::Some(account);
        state
    }

    /// Submits `tx` to the held account. Without an account, or with an inactive
    /// card, nothing changes and the one violation is reported. Otherwise the
    /// account executes `tx`, and the state carries every violation it found.
    pub fn register_tx(&mut self, tx: TX) -> (state: AccountState)
        ensures
            final(self)@ == held_after_tx(old(self)@, tx@),
            state@ == state_on_tx(old(self)@, tx@),
            !accepts(old(self)@, tx@) ==> *final(self) == *old(self),
    {
        match &mut self.account {
            None => AccountState::not_initialized(),
            Some(account) => {
                if account.is_inactive() {
                    return AccountState::inactive(account.available_limit);
                }
                match account.execute_tx(tx) {
                    Ok(account_state) => account_state,
                    Err(errors) => AccountState::new(
                        account.active_card,
                        account.available_limit,
                        errors,
                    ),
                }
            },
        }
    }
}

} // verus!
