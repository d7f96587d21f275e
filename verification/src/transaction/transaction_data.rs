//! Validated and raw transaction records.

use vstd::prelude::*;

use crate::client::Client;
use crate::error::Error;
use crate::money::Money;
use crate::transaction::transaction_id::TransactionId;
use crate::transaction::transaction_type::TransactionType;

verus! {

/// A single transaction record, as read from the source before validation.
#[derive(Clone, Copy, Debug)]
pub struct RawTransactionData {
    pub client: u16,
    pub tx_type: TransactionType,
    pub id: u32,
    pub amount: Option<Money>,
}

impl RawTransactionData {
    /// A raw record is acceptable exactly when its amount is present for the
    /// fund-moving operations and absent for the dispute lifecycle.
    pub open spec fn valid(self) -> bool {
        self.tx_type.moves_funds() <==> self.amount is Some
    }
}

/// A validated transaction record: the amount is present if and only if the
/// operation moves funds.
#[derive(Clone, Copy, Debug)]
pub struct TransactionData {
    pub client: Client,
    pub tx_type: TransactionType,
    pub id: TransactionId,
    pub amount: Option<Money>,
}

impl TransactionData {
    /// The amount-presence invariant established by [`TransactionData::try_from`].
    pub open spec fn wf(self) -> bool {
        self.tx_type.moves_funds() <==> self.amount is Some
    }

    /// The carried amount as a mathematical value; zero when absent.
    pub open spec fn spec_amount(self) -> int {
        match self.amount {
            Some(m) => m@,
            None => 0,
        }
    }

    /// Assembles a record from its parts, without validation.
    pub fn new(client: Client, tx_type: TransactionType, id: TransactionId, amount: Option<
        Money,
    >) -> (r: Self)
        ensures
            r.client == client,
            r.tx_type == tx_type,
            r.id == id,
            r.amount == amount,
    {
        TransactionData { client, tx_type, id, amount }
    }

    /// Validates a raw record: a fund-moving record must carry an amount and
    /// a dispute-lifecycle record must not; anything else is refused.
    pub fn try_from(raw: RawTransactionData) -> (r: Result<TransactionData, Error>)
        ensures
            r is Ok <==> raw.valid(),
            r matches Ok(t) ==> t.client@ == raw.client && t.tx_type == raw.tx_type && t.id@
                == raw.id && t.amount == raw.amount && t.wf(),
            !raw.valid() ==> r == Err::<TransactionData, Error>(Error::InvalidTransaction),
    {
        let transaction = TransactionData {
            client: Client::from(raw.client),
            tx_type: raw.tx_type,
            id: TransactionId::from(raw.id),
            amount: raw.amount,
        };
        if transaction.is_valid() {
            Ok(transaction)
        } else {
            Err(Error::InvalidTransaction)
        }
    }

    /// Whether this record satisfies the amount-presence invariant.
    pub fn is_valid(&self) -> (r: bool)
        ensures
            r == self.wf(),
    {
        match self.tx_type {
            TransactionType::Deposit | TransactionType::Withdrawal => self.amount.is_some(),
            _ => self.amount.is_none(),
        }
    }
}

} // verus!
