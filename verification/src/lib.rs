//! A ledger engine for client accounts: deposits, withdrawals and the
//! dispute / resolve / chargeback cycle, with every balance kept as an exact
//! fixed-point amount.

pub mod transaction_engine;

pub use transaction_engine::{
    process_transaction_file, Amount, Rejection,
    TransactionEngineProcessorState, TransactionInput, TransactionProcessor,
    TransactionRunningState, TransactionType,
};
