use authorizer::{Account, AccountState, Instant, OperationError, TX};
use chrono::{DateTime, Utc};

fn at(text: &str) -> Instant {
    let time: DateTime<Utc> = DateTime::parse_from_rfc3339(text).unwrap().into();
    Instant::new(time.timestamp(), time.timestamp_subsec_nanos()).unwrap()
}

fn epoch() -> Instant {
    let time: DateTime<Utc> = DateTime::default();
    Instant::new(time.timestamp(), time.timestamp_subsec_nanos()).unwrap()
}

#[test]
fn create() {
    let account = Account::new(100, true, vec![TX::new(50, "Merchant X", epoch())]);

    let expected_account = Account {
        available_limit: 100,
        active_card: true,
        txs: vec![TX::new(50, "Merchant X", epoch())],
    };

    assert_eq!(account, expected_account);
}

#[test]
fn execute_tx_successfuly() {
    let mut account = Account::new(100, true, vec![]);

    let account_state = account.execute_tx(TX::new(50, "Merchant X", epoch())).unwrap();

    let expected_account_state = AccountState::new(true, 50, vec![]);

    assert_eq!(account_state, expected_account_state);
    assert_eq!(account.available_limit, 50);
    assert_eq!(account.txs, vec![TX::new(50, "Merchant X", epoch())]);
}

#[test]
fn execute_tx_return_errors() {
    let mut account = Account::new(100, true, vec![]);

    let errors = account.execute_tx(TX::new(150, "Merchant X", epoch())).unwrap_err();

    let expected_errors = vec![OperationError::InsufficientLimit];

    assert_eq!(errors, expected_errors);
    assert_eq!(account, Account::new(100, true, vec![]));
}

#[test]
fn execute_tx_with_amount_equal_to_limit() {
    let mut account = Account::new(100, true, vec![]);

    let account_state = account.execute_tx(TX::new(100, "Merchant X", epoch())).unwrap();

    assert_eq!(account_state, AccountState::new(true, 0, vec![]));
    assert_eq!(account.available_limit, 0);
}

#[test]
fn execute_tx_returns_every_violation_in_rule_order() {
    let history = vec![
        TX::new(10, "A", at("2019-02-13T11:00:00.000Z")),
        TX::new(20, "B", at("2019-02-13T11:00:30.000Z")),
        TX::new(500, "C", at("2019-02-13T11:01:00.000Z")),
    ];
    let mut account = Account::new(100, true, history);

    let errors = account.execute_tx(TX::new(500, "C", at("2019-02-13T11:01:30.000Z"))).unwrap_err();

    assert_eq!(
        errors,
        vec![
            OperationError::InsufficientLimit,
            OperationError::HighFrequencySmallInterval,
            OperationError::DuplicatedTx,
        ]
    );
    assert_eq!(account.available_limit, 100);
    assert_eq!(account.txs.len(), 3);
}

#[test]
fn execute_tx_returns_limit_and_duplicate() {
    let mut account = Account::new(100, true, vec![TX::new(500, "C", epoch())]);

    let errors = account.execute_tx(TX::new(500, "C", at("2019-02-13T11:01:30.000Z"))).unwrap_err();

    assert_eq!(errors, vec![OperationError::InsufficientLimit, OperationError::DuplicatedTx]);
}

#[test]
fn get_last_n_txs() {
    let account = Account::new(
        1000,
        true,
        vec![
            TX::new(100, "Merchant X", epoch()),
            TX::new(50, "Merchant Y", epoch()),
            TX::new(25, "Merchant Z", epoch()),
            TX::new(200, "Merchant ZZ", epoch()),
        ],
    );

    let (initial_tx, last_tx) = account.get_last_n_txs(3);

    assert_eq!(initial_tx, &TX::new(50, "Merchant Y", epoch()));
    assert_eq!(last_tx, &TX::new(200, "Merchant ZZ", epoch()));
}

#[test]
fn get_last_n_txs_of_one() {
    let account = Account::new(1000, true, vec![TX::new(100, "Merchant X", epoch())]);

    let (initial_tx, last_tx) = account.get_last_n_txs(1);

    assert_eq!(initial_tx, &TX::new(100, "Merchant X", epoch()));
    assert_eq!(last_tx, &TX::new(100, "Merchant X", epoch()));
}

#[test]
fn map_to_invalid_state() {
    let account = Account::new(100, false, vec![]);

    let expected_state = AccountState::new(false, 100, vec![]);

    assert_eq!(account.to_state(), expected_state);
}

#[test]
fn to_invalid_state_carries_the_labels() {
    let account = Account::new(100, false, vec![]);

    let state = account.to_invalid_state(vec![
        OperationError::InsufficientLimit,
        OperationError::DuplicatedTx,
    ]);

    assert_eq!(state.active_card(), false);
    assert_eq!(state.available_limit(), 100);
    assert_eq!(
        state.violations(),
        &vec![String::from("insufficient-limit"), String::from("duplicated-tx")]
    );
}

#[test]
fn map_to_state() {
    let account = Account::new(100, false, vec![]);

    let expected_state = AccountState::new(false, 100, vec![]);

    assert_eq!(account.to_state(), expected_state);
}

#[test]
fn is_inactive() {
    let inactive_account = Account::new(100, false, vec![]);
    let active_account = Account::new(100, true, vec![]);

    assert_eq!(inactive_account.is_inactive(), true);
    assert_eq!(active_account.is_inactive(), false);
}

#[test]
fn models_create() {
    let state = AccountState::new(true, 123, vec![]);

    assert_eq!(state.active_card(), true);
    assert_eq!(state.available_limit(), 123);
    assert_eq!(state.violations(), &Vec::<String>::new());
}

#[test]
fn create_with_errors() {
    let state = AccountState::new(true, 123, vec![OperationError::DuplicatedTx]);

    assert_eq!(state.active_card(), true);
    assert_eq!(state.available_limit(), 123);
    assert_eq!(state.violations(), &vec![String::from("duplicated-tx")]);
}

#[test]
fn create_not_initialized() {
    let state = AccountState::not_initialized();

    assert_eq!(state.active_card(), false);
    assert_eq!(state.available_limit(), 0);
    assert_eq!(state.violations(), &vec![String::from("account-not-initialized")]);
}

#[test]
fn create_inactive() {
    let state = AccountState::inactive(100);

    assert_eq!(state.active_card(), false);
    assert_eq!(state.available_limit(), 100);
    assert_eq!(state.violations(), &vec![String::from("inactive-card")]);
}

#[test]
fn every_violation_has_its_label() {
    assert_eq!(
        OperationError::AccountAlreadyInitialized.to_string(),
        "account-already-initialized"
    );
    assert_eq!(OperationError::AccountNotInitialized.to_string(), "account-not-initialized");
    assert_eq!(OperationError::InactiveCard.to_string(), "inactive-card");
    assert_eq!(OperationError::InsufficientLimit.to_string(), "insufficient-limit");
    assert_eq!(
        OperationError::HighFrequencySmallInterval.to_string(),
        "high-frequency-small-interval"
    );
    assert_eq!(OperationError::DuplicatedTx.to_string(), "duplicated-tx");
    assert_eq!(OperationError::DuplicatedTx.as_str(), "duplicated-tx");
}

#[test]
fn tx_create() {
    let datetime = epoch();

    let tx = TX::new(100, "Merchant X", datetime);

    let expected_tx = TX { amount: 100, merchant: String::from("Merchant X"), time: datetime };

    assert_eq!(tx, expected_tx);
}

#[test]
fn get_seconds_since_another_tx() {
    let tx_one = TX::new(100, "Merchant X", at("2019-02-13T11:00:00.000Z"));

    let tx_two = TX::new(100, "Merchant X", at("2019-02-13T11:00:05.000Z"));

    let seconds = tx_two.seconds_since(&tx_one);

    let expected_seconds = 5;

    assert_eq!(seconds, expected_seconds);
    assert_eq!(tx_one.seconds_since(&tx_two), -5);
}
