use on_chain_vault::account::AccountId;
use on_chain_vault::errors::VaultError;
use on_chain_vault::events::DepositEvent;
use on_chain_vault::events::Event;
use on_chain_vault::events::EventLog;
use on_chain_vault::events::WithdrawEvent;
use on_chain_vault::vault::Deposit;
use on_chain_vault::vault::Vault;
use on_chain_vault::vault::Withdraw;

const VAULT_ID: AccountId = AccountId(9);
const AUTHORITY: AccountId = AccountId(1);
const DEPOSITOR: AccountId = AccountId(2);

fn standard_vault() -> Vault {
    Vault::new(VAULT_ID, AUTHORITY, 1000, false, 500)
}

#[test]
fn withdraw_within_available_succeeds() {
    let mut vault = standard_vault();
    let mut authority_balance: u64 = 0;
    let mut log = EventLog::new();
    let r = vault.withdraw(Withdraw { amount: 400 }, AUTHORITY, &mut authority_balance, &mut log);
    assert_eq!(r, Ok(()));
    assert_eq!(vault.balance, 600);
    assert_eq!(authority_balance, 400);
    assert_eq!(log.len(), 1);
    assert_eq!(
        *log.get(0),
        Event::Withdraw(WithdrawEvent { amount: 400, authority: AUTHORITY, vault_id: VAULT_ID })
    );
}

#[test]
fn withdraw_beyond_available_fails() {
    let mut vault = standard_vault();
    let mut authority_balance: u64 = 0;
    let mut log = EventLog::new();
    let r = vault.withdraw(Withdraw { amount: 600 }, AUTHORITY, &mut authority_balance, &mut log);
    assert_eq!(r, Err(VaultError::InsufficientBalance));
    assert_eq!(vault.balance, 1000);
    assert_eq!(authority_balance, 0);
    assert_eq!(log.len(), 0);
}

#[test]
fn deposit_into_locked_vault_fails() {
    let mut vault = Vault::new(VAULT_ID, AUTHORITY, 1000, true, 500);
    let mut depositor_balance: u64 = 1000;
    let mut log = EventLog::new();
    let r = vault.deposit(Deposit { depositor: DEPOSITOR, amount: 100 }, &mut depositor_balance, &mut log);
    assert_eq!(r, Err(VaultError::VaultLocked));
    assert_eq!(vault, Vault::new(VAULT_ID, AUTHORITY, 1000, true, 500));
    assert_eq!(depositor_balance, 1000);
    assert_eq!(log.len(), 0);
}

#[test]
fn deposit_beyond_depositor_balance_fails() {
    let mut vault = standard_vault();
    let mut depositor_balance: u64 = 50;
    let mut log = EventLog::new();
    let r = vault.deposit(Deposit { depositor: DEPOSITOR, amount: 100 }, &mut depositor_balance, &mut log);
    assert_eq!(r, Err(VaultError::InsufficientBalance));
    assert_eq!(vault.balance, 1000);
    assert_eq!(depositor_balance, 50);
    assert_eq!(log.len(), 0);
}

#[test]
fn withdraw_by_non_authority_fails() {
    let mut vault = standard_vault();
    let mut intruder_balance: u64 = 0;
    let mut log = EventLog::new();
    let r = vault.withdraw(Withdraw { amount: 1 }, DEPOSITOR, &mut intruder_balance, &mut log);
    assert_eq!(r, Err(VaultError::Unauthorized));
    assert_eq!(vault.balance, 1000);
    assert_eq!(intruder_balance, 0);
    assert_eq!(log.len(), 0);
}

#[test]
fn withdraw_by_non_authority_fails_even_on_locked_or_poor_vault() {
    let mut vault = Vault::new(VAULT_ID, AUTHORITY, 500, true, 500);
    let mut intruder_balance: u64 = 0;
    let mut log = EventLog::new();
    let r = vault.withdraw(Withdraw { amount: 700 }, DEPOSITOR, &mut intruder_balance, &mut log);
    assert_eq!(r, Err(VaultError::Unauthorized));
}

#[test]
fn withdraw_from_locked_vault_fails() {
    let mut vault = Vault::new(VAULT_ID, AUTHORITY, 1000, true, 500);
    let mut authority_balance: u64 = 7;
    let mut log = EventLog::new();
    let r = vault.withdraw(Withdraw { amount: 100 }, AUTHORITY, &mut authority_balance, &mut log);
    assert_eq!(r, Err(VaultError::VaultLocked));
    assert_eq!(vault.balance, 1000);
    assert_eq!(authority_balance, 7);
    assert_eq!(log.len(), 0);
}

#[test]
fn deposit_succeeds_and_moves_value() {
    let mut vault = standard_vault();
    let mut depositor_balance: u64 = 250;
    let mut log = EventLog::new();
    let r = vault.deposit(Deposit { depositor: DEPOSITOR, amount: 250 }, &mut depositor_balance, &mut log);
    assert_eq!(r, Ok(()));
    assert_eq!(vault.balance, 1250);
    assert_eq!(depositor_balance, 0);
    assert_eq!(log.len(), 1);
    assert_eq!(
        *log.get(0),
        Event::Deposit(DepositEvent { amount: 250, depositor: DEPOSITOR, vault_id: VAULT_ID })
    );
}

#[test]
fn deposit_of_zero_is_accepted() {
    let mut vault = standard_vault();
    let mut depositor_balance: u64 = 0;
    let mut log = EventLog::new();
    let r = vault.deposit(Deposit { depositor: DEPOSITOR, amount: 0 }, &mut depositor_balance, &mut log);
    assert_eq!(r, Ok(()));
    assert_eq!(vault.balance, 1000);
    assert_eq!(depositor_balance, 0);
    assert_eq!(log.len(), 1);
}

#[test]
fn deposit_overflowing_vault_balance_fails() {
    let mut vault = Vault::new(VAULT_ID, AUTHORITY, u64::MAX - 10, false, 500);
    let mut depositor_balance: u64 = 100;
    let mut log = EventLog::new();
    let r = vault.deposit(Deposit { depositor: DEPOSITOR, amount: 11 }, &mut depositor_balance, &mut log);
    assert_eq!(r, Err(VaultError::Overflow));
    assert_eq!(vault.balance, u64::MAX - 10);
    assert_eq!(depositor_balance, 100);
    assert_eq!(log.len(), 0);

    let r = vault.deposit(Deposit { depositor: DEPOSITOR, amount: 10 }, &mut depositor_balance, &mut log);
    assert_eq!(r, Ok(()));
    assert_eq!(vault.balance, u64::MAX);
}

#[test]
fn withdraw_overflowing_authority_balance_fails() {
    let mut vault = standard_vault();
    let mut authority_balance: u64 = u64::MAX - 10;
    let mut log = EventLog::new();
    let r = vault.withdraw(Withdraw { amount: 11 }, AUTHORITY, &mut authority_balance, &mut log);
    assert_eq!(r, Err(VaultError::Overflow));
    assert_eq!(vault.balance, 1000);
    assert_eq!(authority_balance, u64::MAX - 10);
    assert_eq!(log.len(), 0);

    let r = vault.withdraw(Withdraw { amount: 10 }, AUTHORITY, &mut authority_balance, &mut log);
    assert_eq!(r, Ok(()));
    assert_eq!(authority_balance, u64::MAX);
    assert_eq!(vault.balance, 990);
}

#[test]
fn withdraw_from_vault_under_its_floor_fails_even_for_zero() {
    let mut vault = Vault::new(VAULT_ID, AUTHORITY, 300, false, 300);
    vault.balance = 200;
    let mut authority_balance: u64 = 0;
    let mut log = EventLog::new();
    let r = vault.withdraw(Withdraw { amount: 0 }, AUTHORITY, &mut authority_balance, &mut log);
    assert_eq!(r, Err(VaultError::InsufficientBalance));
    assert_eq!(vault.balance, 200);
}

#[test]
fn withdraw_down_to_the_floor_succeeds() {
    let mut vault = standard_vault();
    let mut authority_balance: u64 = 0;
    let mut log = EventLog::new();
    let r = vault.withdraw(Withdraw { amount: 500 }, AUTHORITY, &mut authority_balance, &mut log);
    assert_eq!(r, Ok(()));
    assert_eq!(vault.balance, 500);
    assert_eq!(vault.balance, vault.reserve_floor);
}

#[test]
fn available_is_balance_net_of_floor() {
    assert_eq!(standard_vault().available(), 500);
    assert_eq!(Vault::new(VAULT_ID, AUTHORITY, 500, false, 500).available(), 0);
    let mut under = Vault::new(VAULT_ID, AUTHORITY, 300, false, 300);
    under.balance = 100;
    assert_eq!(under.available(), 0);
    assert_eq!(Vault::new(VAULT_ID, AUTHORITY, u64::MAX, false, 0).available(), u64::MAX);
}

#[test]
fn failed_operations_leave_everything_bit_identical() {
    let vault_before = Vault::new(VAULT_ID, AUTHORITY, 700, false, 600);
    let mut vault = vault_before;
    let mut depositor_balance: u64 = 5;
    let mut authority_balance: u64 = 40;
    let mut log = EventLog::new();

    let r = vault.deposit(Deposit { depositor: DEPOSITOR, amount: 6 }, &mut depositor_balance, &mut log);
    assert_eq!(r, Err(VaultError::InsufficientBalance));
    let r = vault.withdraw(Withdraw { amount: 101 }, AUTHORITY, &mut authority_balance, &mut log);
    assert_eq!(r, Err(VaultError::InsufficientBalance));
    let r = vault.withdraw(Withdraw { amount: 1 }, DEPOSITOR, &mut authority_balance, &mut log);
    assert_eq!(r, Err(VaultError::Unauthorized));

    assert_eq!(vault, vault_before);
    assert_eq!(depositor_balance, 5);
    assert_eq!(authority_balance, 40);
    assert_eq!(log.len(), 0);
}
