//! End-to-end pipeline tests: records travel through a bounded crossbeam
//! channel and the consumer applies them to the ledger in arrival order.

use payeng::client::Client;
use payeng::error::Error;
use payeng::money::Money;
use payeng::transaction::pipeline::Writer;
use payeng::transaction::TransactionData;
use payeng::transaction::TransactionId;
use payeng::transaction::TransactionType;

fn money(v: f64) -> Money {
    Money::from_units((v * 10_000.0).round() as i64)
}

fn record(id: u32, client: u16, amount: Option<f64>, tx_type: TransactionType) -> TransactionData {
    TransactionData::new(
        Client::from(client),
        tx_type,
        TransactionId::from(id),
        amount.map(money),
    )
}

#[test]
fn totals_are_the_net_of_applied_records() {
    let (tx, rx) = crossbeam::channel::bounded(20);
    let records = vec![
        record(1, 7, Some(18.0), TransactionType::Deposit),
        record(2, 7, Some(15.0), TransactionType::Deposit),
        record(3, 7, Some(11.0), TransactionType::Withdrawal),
        // Fails for insufficient funds and must contribute nothing.
        record(4, 7, Some(65.0), TransactionType::Withdrawal),
        record(5, 7, Some(9.5), TransactionType::Withdrawal),
    ];
    for r in records {
        tx.send(r).unwrap();
    }
    drop(tx);

    let mut writer = Writer::from_receiver(rx);
    while writer.process_transaction() {}
    let registry = writer.registry();
    let account = registry.get(&Client::from(7)).unwrap();
    // 18.0 + 15.0 - 11.0 - 9.5, with the overdraw skipped.
    assert_eq!(account.total(), money(12.5));
    assert_eq!(account.available(), money(12.5));
    assert!(account.held().is_zero());
    assert!(!account.locked());
    assert!(!account.contains_operation(&TransactionId::from(4)));
}

#[test]
fn records_are_applied_in_arrival_order() {
    // The withdrawal only succeeds because the deposit precedes it.
    let (tx, rx) = crossbeam::channel::bounded(5);
    tx.send(record(1, 2, Some(5.0), TransactionType::Deposit))
        .unwrap();
    tx.send(record(2, 2, Some(3.0), TransactionType::Withdrawal))
        .unwrap();
    drop(tx);
    let mut writer = Writer::from_receiver(rx);
    while writer.process_transaction() {}
    let account = writer.registry().get(&Client::from(2)).unwrap();
    assert_eq!(account.total(), money(2.0));
    assert!(account.contains_operation(&TransactionId::from(2)));
}

#[test]
fn dispute_lifecycle_through_the_channel() {
    let (tx, rx) = crossbeam::channel::bounded(10);
    tx.send(record(1, 3, Some(3.5), TransactionType::Deposit))
        .unwrap();
    tx.send(record(2, 3, Some(1.5), TransactionType::Withdrawal))
        .unwrap();
    tx.send(record(2, 3, None, TransactionType::Dispute)).unwrap();
    tx.send(record(2, 3, None, TransactionType::ChargeBack))
        .unwrap();
    drop(tx);
    let mut writer = Writer::from_receiver(rx);
    while writer.process_transaction() {}
    let account = writer.registry().get(&Client::from(3)).unwrap();
    assert_eq!(account.total(), money(2.0));
    assert_eq!(account.available(), money(2.0));
    assert!(account.held().is_zero());
    assert!(account.locked());
}

#[test]
fn invalid_record_is_dropped_by_the_consumer() {
    let (tx, rx) = crossbeam::channel::bounded(5);
    // A dispute carrying an amount breaks the amount-presence rule.
    tx.send(record(1, 4, Some(1.0), TransactionType::Dispute))
        .unwrap();
    drop(tx);
    let mut writer = Writer::from_receiver(rx);
    while writer.process_transaction() {}
    assert!(writer.registry().get(&Client::from(4)).is_none());
    assert_eq!(writer.registry().len(), 0);
}

#[test]
fn closed_channel_signals_end_of_stream() {
    let (tx, rx) = crossbeam::channel::bounded::<TransactionData>(5);
    drop(tx);
    let writer = Writer::from_receiver(rx);
    assert!(matches!(writer.recv(), Err(Error::RecvError)));
}
