//! Transaction data types and the account state machine they drive.

pub mod account;
pub mod pipeline;
pub mod transaction_data;
pub mod transaction_id;
pub mod transaction_type;

pub use transaction_data::RawTransactionData;
pub use transaction_data::TransactionData;
pub use transaction_id::TransactionId;
pub use transaction_type::TransactionType;
