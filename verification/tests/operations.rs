use authorizer::{
    apply_operations, Account, AccountData, AccountState, Authorizer, FileOperation, Instant,
    OperationError, TxData, TX,
};
use chrono::{DateTime, Utc};

fn at(text: &str) -> Instant {
    let time: DateTime<Utc> = DateTime::parse_from_rfc3339(text).unwrap().into();
    Instant::new(time.timestamp(), time.timestamp_subsec_nanos()).unwrap()
}

fn account(available_limit: u32, active_card: bool) -> FileOperation {
    FileOperation::CreateAccount(AccountData { available_limit, active_card })
}

fn transaction(merchant: &str, amount: u32, time: &str) -> FileOperation {
    FileOperation::ExecuteTX(TxData { merchant: String::from(merchant), amount, time: at(time) })
}

#[test]
fn models_create_account() {
    let account_data = AccountData { available_limit: 100, active_card: true };
    let expected_account = Account::new(100, true, vec![]);

    assert_eq!(account_data.to_account(), expected_account);
}

#[test]
fn create_tx() {
    let tx_time = at("2019-02-13T11:00:00.000Z");

    let tx_data = TxData { amount: 100, merchant: String::from("Nike"), time: tx_time };
    let expected_tx = TX::new(100, "Nike", tx_time);

    assert_eq!(tx_data.to_tx(), expected_tx);
}

#[test]
fn handle_successful_file_operation() {
    let operations = vec![
        account(100, true),
        transaction("Burger King", 20, "2019-02-13T10:00:00.000Z"),
    ];

    let account_states = apply_operations(operations);
    let expected_account_states =
        vec![AccountState::new(true, 100, vec![]), AccountState::new(true, 80, vec![])];

    assert_eq!(account_states, expected_account_states);
}

#[test]
fn no_operation_reports_nothing() {
    assert_eq!(apply_operations(vec![]), vec![]);
}

#[test]
fn operations_are_applied_in_order() {
    let operations = vec![
        transaction("Habbib's", 20, "2019-02-13T09:00:00.000Z"),
        account(100, true),
        account(350, false),
        transaction("Burger King", 20, "2019-02-13T10:00:00.000Z"),
        transaction("Habbib's", 90, "2019-02-13T11:00:00.000Z"),
        transaction("Burger King", 20, "2019-02-13T12:00:00.000Z"),
        transaction("McDonald's", 80, "2019-02-13T12:00:01.000Z"),
    ];

    let account_states = apply_operations(operations);

    assert_eq!(
        account_states,
        vec![
            AccountState::not_initialized(),
            AccountState::new(true, 100, vec![]),
            AccountState::new(false, 350, vec![OperationError::AccountAlreadyInitialized]),
            AccountState::new(true, 80, vec![]),
            AccountState::new(true, 80, vec![OperationError::InsufficientLimit]),
            AccountState::new(true, 80, vec![OperationError::DuplicatedTx]),
            AccountState::new(true, 0, vec![]),
        ]
    );
}

#[test]
fn apply_dispatches_on_the_operation() {
    let mut authorizer = Authorizer::new();

    let created = authorizer.apply(account(100, true));
    let executed = authorizer.apply(transaction("Burger King", 20, "2019-02-13T10:00:00.000Z"));

    assert_eq!(created, AccountState::new(true, 100, vec![]));
    assert_eq!(executed, AccountState::new(true, 80, vec![]));
    assert_eq!(
        authorizer.account(),
        Some(&Account::new(
            80,
            true,
            vec![TX::new(20, "Burger King", at("2019-02-13T10:00:00.000Z"))]
        ))
    );
}

#[test]
fn limit_is_never_negative_in_any_reported_state() {
    let mut operations = vec![account(100, true)];
    let mut minute: u32 = 0;
    for amount in [30, 80, 70, 1, 0, 200, 5] {
        let time = format!("2019-02-13T{:02}:00:00.000Z", minute);
        operations.push(transaction(&format!("M{}", minute), amount, &time));
        minute += 1;
    }

    let account_states = apply_operations(operations);

    let limits: Vec<u32> = account_states.iter().map(|s| s.available_limit()).collect();
    assert_eq!(limits, vec![100, 70, 70, 0, 0, 0, 0, 0]);
}
