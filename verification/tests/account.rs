//! Account state-machine tests: deposits, withdrawals and the dispute
//! lifecycle, simulated over a handful of client accounts.

use std::collections::HashMap;

use payeng::client::Client;
use payeng::error::Error;
use payeng::money::Money;
use payeng::transaction::account::Account;
use payeng::transaction::account::State;
use payeng::transaction::TransactionData;
use payeng::transaction::TransactionId;
use payeng::transaction::TransactionType;

fn money(v: f64) -> Money {
    Money::from_units((v * 10_000.0).round() as i64)
}

fn transaction(
    id: u32,
    client: u16,
    amount: Option<f64>,
    tx_type: TransactionType,
) -> TransactionData {
    TransactionData::new(
        Client::from(client),
        tx_type,
        TransactionId::from(id),
        amount.map(money),
    )
}

fn make_deposit() -> HashMap<Client, Account> {
    [
        transaction(1, 1, Some(3.5), TransactionType::Deposit),
        transaction(1, 2, Some(18.0), TransactionType::Deposit),
        transaction(2, 5, Some(15.1), TransactionType::Deposit),
        transaction(1, 7, Some(65.0), TransactionType::Deposit),
        transaction(1, 9, Some(47.1), TransactionType::Deposit),
        transaction(1, 11, Some(31.0), TransactionType::Deposit),
    ]
    .into_iter()
    .map(|tr| {
        let mut account = Account::new();
        let client = tr.client.clone();
        account.make_deposit(tr).unwrap();
        (client, account)
    })
    .collect()
}

/// Returns account state after deposit and withdrawal
fn make_deposit_and_withdraw() -> HashMap<Client, Account> {
    let mut states = make_deposit();
    [
        transaction(2, 1, Some(1.5), TransactionType::Withdrawal),
        transaction(3, 2, Some(5.0), TransactionType::Withdrawal),
        transaction(4, 5, Some(10.1), TransactionType::Withdrawal),
        transaction(7, 7, Some(50.0), TransactionType::Withdrawal),
        transaction(18, 9, Some(27.1), TransactionType::Withdrawal),
        transaction(11, 11, Some(30.0), TransactionType::Withdrawal),
    ]
    .into_iter()
    .for_each(|tr| {
        if let Some(account) = states.get_mut(&tr.client) {
            account.withdraw(tr).unwrap();
        }
    });
    states
}

/// Returns account state after deposit, widthdrawal and dispute.
fn make_deposit_withdraw_then_dispute() -> HashMap<Client, Account> {
    let mut accounts = make_deposit_and_withdraw();
    for (tx_id, client) in [(2, 1), (7, 7), (18, 9), (11, 11), (47, 1)]
        .map(|(tx_id, client)| (TransactionId::from(tx_id), Client::from(client)))
    {
        if let Some(account) = accounts.get_mut(&client) {
            match account.dispute(tx_id.clone()) {
                Ok(_) => {
                    assert!(
                        account.contains_operation(&tx_id),
                        "unrecognized transaction"
                    );
                }
                Err(_) => {
                    assert!(!account.contains_operation(&tx_id), "transaction exists");
                }
            }
        }
    }
    accounts
}

#[test]
fn simulate_account_deposit_transactions() {
    let accounts = make_deposit();
    for (client, amount) in [
        (1, 3.5),
        (2, 18.0),
        (5, 15.1),
        (7, 65.0),
        (9, 47.1),
        (11, 31.0),
    ]
    .map(|(client, amount)| (Client::from(client), money(amount)))
    {
        let account = &accounts[&client];
        assert_eq!(
            account.total(),
            amount,
            "total is not the expected amount for client #{}",
            client.inner_ref()
        );
        assert!(
            account.held().is_zero(),
            "held is not the expected amount for client #{}",
            client.inner_ref()
        );
        assert_eq!(
            account.available(),
            amount,
            "available amount is different for client #{}",
            client.inner_ref()
        );
        assert!(
            !account.locked(),
            "lock state is wrong for client #{}",
            client.inner_ref()
        );
    }
}

#[test]
fn simulate_account_deposit_follow_by_withdrawal() {
    let accounts = make_deposit_and_withdraw();
    for (id, total) in [
        (1, 2.0),
        (2, 13.0),
        (5, 5.0),
        (7, 15.0),
        (9, 20.0),
        (11, 1.0),
    ]
    .map(|(id, total)| (Client::from(id), money(total)))
    {
        let account = &accounts[&id];
        assert_eq!(
            account.total(),
            total,
            "total is not the expected amount for client #{}",
            id.inner_ref()
        );
        assert!(
            account.held().is_zero(),
            "held is not the expected amount for client #{}",
            id.inner_ref()
        );
        assert_eq!(
            account.available(),
            total,
            "available amount is different for client #{}",
            id.inner_ref()
        );
        assert!(
            !account.locked(),
            "lock state is wrong for client #{}",
            id.inner_ref()
        );
    }
}

#[test]
fn cannot_withdraw_more_funds_than_available() {
    let mut accounts = make_deposit();
    let transaction = transaction(7, 7, Some(2000.0), TransactionType::Withdrawal);
    let client = transaction.client.clone();
    match accounts.get_mut(&client).unwrap().withdraw(transaction) {
        Ok(_) => panic!("should never withdraw more fund than available."),
        Err(e) => assert!(matches!(e, Error::WithdrawalError)),
    }
}

#[test]
fn simulate_account_deposit_follow_by_withdrawal_and_dispute() {
    let accounts = make_deposit_withdraw_then_dispute();
    for (client, total, held, available) in [
        // client, total, held, available
        (1, 3.5, 1.5, 2.0),
        (7, 65.0, 50.0, 15.0),
        (9, 47.1, 27.1, 20.0),
        (11, 31.0, 30.0, 1.0),
    ]
    .map(|(client, total, held, available)| {
        (Client::from(client), money(total), money(held), money(available))
    }) {
        let account = &accounts[&client];
        assert_eq!(
            account.total(),
            total,
            "total is not the expected amount for client #{}",
            client.inner_ref()
        );
        assert_eq!(
            account.held(),
            held,
            "held is not the expected amount for client #{}",
            client.inner_ref()
        );
        assert_eq!(
            account.available(),
            available,
            "available amount is different for client #{}",
            client.inner_ref()
        );
        assert!(
            !account.locked(),
            "lock state is wrong for client #{}",
            client.inner_ref()
        );
    }
}

#[test]
fn simulate_account_deposit_follow_by_withdrawal_dispute_and_resolve() {
    let mut accounts = make_deposit_withdraw_then_dispute();

    for (tx_id, client) in [(2, 1), (18, 9), (71, 11)]
        .map(|(tx_id, client)| (TransactionId::from(tx_id), Client::from(client)))
    {
        if let Some(account) = accounts.get_mut(&client) {
            match account.resolve(tx_id.clone()) {
                Ok(_) => {
                    assert!(
                        account.contains_operation(&tx_id),
                        "unrecognized transaction fro client: #{}",
                        client.inner_ref()
                    );
                    assert!(
                        !account.locked(),
                        "lock state is wrong for client: #{}",
                        client.inner_ref()
                    );
                }
                Err(_) => {
                    if let Some(state) = account.operation_state(&tx_id) {
                        assert_ne!(
                            state,
                            State::Disputed,
                            "not disputed transaction: #{}",
                            client.inner_ref()
                        );
                    }
                }
            }
        }
    }

    for (client, total, held, available) in [
        // client, total, held, available
        (1, 3.5, 0.0, 3.5),
        (7, 65.0, 50.0, 15.0),
        (9, 47.1, 0.0, 47.1),
        (11, 31.0, 30.0, 1.0),
    ]
    .map(|(client, total, held, available)| {
        (Client::from(client), money(total), money(held), money(available))
    }) {
        let account = &accounts[&client];
        assert_eq!(
            account.total(),
            total,
            "total is not the expected amount for client #{}",
            client.inner_ref()
        );
        assert_eq!(
            account.held(),
            held,
            "held is not the expected amount for client: #{}",
            client.inner_ref()
        );
        assert_eq!(
            account.available(),
            available,
            "available amount is different for client: #{}",
            client.inner_ref()
        );
    }
}

#[test]
fn simulate_account_deposit_follow_by_withdrawal_dispute_and_charge_back() {
    let mut accounts = make_deposit_withdraw_then_dispute();
    for (tx_id, client) in [(2, 1), (18, 9), (71, 11)]
        .map(|(tx_id, client)| (TransactionId::from(tx_id), Client::from(client)))
    {
        if let Some(account) = accounts.get_mut(&client) {
            match account.charge_back(tx_id.clone()) {
                Ok(_) => {
                    assert!(
                        account.contains_operation(&tx_id),
                        "unrecognized transaction for client: #{}",
                        client.inner_ref()
                    );
                    assert!(
                        account.locked(),
                        "lock state is wrong for client: #{}",
                        client.inner_ref()
                    );
                }
                Err(_) => {
                    if let Some(state) = account.operation_state(&tx_id) {
                        assert_ne!(
                            state,
                            State::Disputed,
                            "not disputed transaction: #{}",
                            client.inner_ref()
                        );
                    }
                }
            }
        }
    }

    for (client, total, held, available) in [
        // client, total, held, available
        (1, 2.0, 0.0, 2.0),
        (7, 65.0, 50.0, 15.0),
        (9, 20.0, 0.0, 20.0),
        (11, 31.0, 30.0, 1.0),
    ]
    .map(|(client, total, held, available)| {
        (Client::from(client), money(total), money(held), money(available))
    }) {
        let account = &accounts[&client];
        assert_eq!(
            account.total(),
            total,
            "total is not the expected amount for client #{}",
            client.inner_ref()
        );
        assert_eq!(
            account.held(),
            held,
            "held is not the expected amount for client: #{}",
            client.inner_ref()
        );
        assert_eq!(
            account.available(),
            available,
            "available amount is different for client: #{}",
            client.inner_ref()
        );
    }
}
