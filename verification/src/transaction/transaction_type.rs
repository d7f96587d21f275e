//! Transaction operation kinds.

use vstd::prelude::*;

verus! {

/// The five operations of the transaction lifecycle.
#[derive(Clone, Copy, Debug, PartialEq, Eq, Structural)]
pub enum TransactionType {
    Deposit,
    Withdrawal,
    Dispute,
    Resolve,
    ChargeBack,
}

impl TransactionType {
    /// The lowercase token that names this operation in records.
    pub open spec fn spec_label(self) -> Seq<char> {
        match self {
            TransactionType::Deposit => "deposit"@,
            TransactionType::Withdrawal => "withdrawal"@,
            TransactionType::Dispute => "dispute"@,
            TransactionType::Resolve => "resolve"@,
            TransactionType::ChargeBack => "chargeback"@,
        }
    }

    /// Returns the lowercase token that names this operation.
    pub fn label(&self) -> (r: &'static str)
        ensures
            r@ == self.spec_label(),
    {
        match self {
            TransactionType::Deposit => "deposit",
            TransactionType::Withdrawal => "withdrawal",
            TransactionType::Dispute => "dispute",
            TransactionType::Resolve => "resolve",
            TransactionType::ChargeBack => "chargeback",
        }
    }

    /// Whether this operation moves funds and therefore carries an amount.
    pub open spec fn moves_funds(self) -> bool {
        self is Deposit || self is Withdrawal
    }
}

} // verus!
