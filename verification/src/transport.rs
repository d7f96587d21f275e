//! Transport traits.
//!
//! The behaviour expected of the two halves of the pipeline, for callers
//! that plug in their own record source or sink.

use vstd::prelude::*;

use crate::error::Error;
use crate::transaction::transaction_data::TransactionData;

verus! {

/// The producing half: reads records from its source and forwards them
/// until the source is exhausted.
pub trait Sender {
    fn send(&mut self) -> Result<(), Error>;
}

/// The consuming half: yields the next validated record, or an error once
/// the stream is closed.
pub trait RecordReceiver {
    fn recv(&mut self) -> Result<TransactionData, Error>;
}

} // verus!
