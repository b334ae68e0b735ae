use vstd::prelude::*;
use super::amount::Amount;

verus! {

/// The five kinds of event a ledger accepts.
#[derive(Clone, Copy, Debug, PartialEq, Eq, Structural)]
pub enum TransactionType {
    Deposit,
    Withdrawal,
    Dispute,
    Resolve,
    Chargeback,
}

/// One parsed input event. A deposit or withdrawal carries its amount; a
/// dispute, resolve or chargeback names an earlier transaction by `tx` and
/// carries none.
#[derive(Clone, Copy, Debug)]
pub struct TransactionInput {
    pub transaction_type: TransactionType,
    pub client: u16,
    pub tx: u32,
    pub amount: Option<Amount>,
}

impl TransactionInput {
    /// Whether the record moves money itself, and so can later be named by a
    /// dispute, resolve or chargeback.
    pub open spec fn is_transfer(self) -> bool {
        self.transaction_type is Deposit || self.transaction_type is Withdrawal
    }
}

} // verus!
