//! Error type.
//!
//! Every failure of the ledger is local to a single event: the event is
//! refused, the account is left exactly as it was, and processing goes on
//! with the next event.

use vstd::prelude::*;

verus! {

/// The ways a single ledger event can be refused.
#[derive(Clone, Debug, PartialEq, Eq)]
pub enum Error {
    /// A record whose amount field does not match its operation kind.
    InvalidTransaction,
    /// The dispatch channel refused a record; the producer reports the
    /// reason it was given.
    SendError(String),
    /// A withdrawal larger than the available funds.
    WithdrawalError,
    /// A dispute, resolve or chargeback against an unknown or wrongly staged
    /// transaction.
    DisputeStateError,
    /// The dispatch channel is closed and drained: the normal end-of-stream
    /// signal, not a fault.
    RecvError,
    /// An operation whose application would push a balance outside the
    /// representable fixed-point range.
    AmountOutOfRange,
}

} // verus!
