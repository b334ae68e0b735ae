//! The ledger engine: records, accounts, the ledger of one client, the
//! registry of all clients and the batch driver, with the laws that hold of
//! them.

pub mod amount;
pub mod driver;
pub mod laws;
pub mod processor;
pub mod processor_state;
pub mod rejection;
pub mod transaction;
pub mod transaction_running_state;

pub use amount::Amount;
pub use driver::process_transaction_file;
pub use processor::TransactionProcessor;
pub use processor_state::TransactionEngineProcessorState;
pub use rejection::Rejection;
pub use transaction::{TransactionInput, TransactionType};
pub use transaction_running_state::TransactionRunningState;
