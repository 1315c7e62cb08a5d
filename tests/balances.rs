use state_machine::balances::{BalancesConfig, BalancesPallet, Call};
use state_machine::support::{Dispatch, DispatchError};
use state_machine::system::SystemConfig;

struct TestConfig;

impl SystemConfig for TestConfig {
    type AccountId = String;
    type BlockNumber = u32;
    type Nonce = u32;
}

impl BalancesConfig for TestConfig {
    type Balance = u128;
}

#[test]
fn init_balances() {
    let mut balances = BalancesPallet::<TestConfig>::new();

    assert_eq!(balances.balance(&"alice".to_string()), 0);
    balances.set_balance(&"alice".to_string(), 100);
    assert_eq!(balances.balance(&"alice".to_string()), 100);
    assert_eq!(balances.balance(&"bob".to_string()), 0);
}

#[test]
fn transfer_funds() {
    let mut balances = BalancesPallet::<TestConfig>::new();

    balances.set_balance(&"alice".to_string(), 100);
    let result = balances.transfer(&"alice".to_string(), &"bob".to_string(), 50);
    assert_eq!(result.unwrap(), ());
    assert_eq!(balances.balance(&"alice".to_string()), 50);
    assert_eq!(balances.balance(&"bob".to_string()), 50);
}

#[test]
fn fail_to_transfer_non_existent_funds() {
    let mut balances = BalancesPallet::<TestConfig>::new();

    balances.set_balance(&"alice".to_string(), 100);

    let result = balances.transfer(&"alice".to_string(), &"bob".to_string(), 101);

    assert!(result.is_err());
    assert_eq!(result.unwrap_err().message(), "Not enough funds.");
    assert_eq!(balances.balance(&"alice".to_string()), 100);
    assert_eq!(balances.balance(&"bob".to_string()), 0);
}

#[test]
fn unknown_account_has_zero_balance() {
    let balances = BalancesPallet::<TestConfig>::new();
    assert_eq!(balances.balance(&"nobody".to_string()), 0);
}

#[test]
fn transfer_keeps_the_sum() {
    let mut balances = BalancesPallet::<TestConfig>::new();
    balances.set_balance(&"alice".to_string(), 70);
    balances.set_balance(&"bob".to_string(), 5);
    assert_eq!(balances.transfer(&"alice".to_string(), &"bob".to_string(), 70), Ok(()));
    assert_eq!(balances.balance(&"alice".to_string()), 0);
    assert_eq!(balances.balance(&"bob".to_string()), 75);
    assert_eq!(balances.balance(&"charlie".to_string()), 0);
}

#[test]
fn transfer_overflow_changes_nothing() {
    let mut balances = BalancesPallet::<TestConfig>::new();
    balances.set_balance(&"alice".to_string(), 10);
    balances.set_balance(&"bob".to_string(), u128::MAX - 5);
    let result = balances.transfer(&"alice".to_string(), &"bob".to_string(), 6);
    assert_eq!(result, Err(DispatchError::BalanceOverflow));
    assert_eq!(result.unwrap_err().message(), "Funds overflow");
    assert_eq!(balances.balance(&"alice".to_string()), 10);
    assert_eq!(balances.balance(&"bob".to_string()), u128::MAX - 5);
    assert_eq!(balances.transfer(&"alice".to_string(), &"bob".to_string(), 5), Ok(()));
    assert_eq!(balances.balance(&"bob".to_string()), u128::MAX);
}

#[test]
fn transfer_to_self_moves_nothing() {
    let mut balances = BalancesPallet::<TestConfig>::new();
    balances.set_balance(&"alice".to_string(), 40);
    assert_eq!(balances.transfer(&"alice".to_string(), &"alice".to_string(), 40), Ok(()));
    assert_eq!(balances.balance(&"alice".to_string()), 40);
    assert_eq!(
        balances.transfer(&"alice".to_string(), &"alice".to_string(), 41),
        Err(DispatchError::InsufficientFunds)
    );
}

#[test]
fn dispatch_transfer_call() {
    let mut balances = BalancesPallet::<TestConfig>::new();
    balances.set_balance(&"alice".to_string(), 9);
    let call = Call::<TestConfig>::Transfer { to: "bob".to_string(), amount: 4 };
    assert_eq!(balances.dispatch("alice".to_string(), call), Ok(()));
    assert_eq!(balances.balance(&"alice".to_string()), 5);
    assert_eq!(balances.balance(&"bob".to_string()), 4);
}
