use vstd::prelude::*;
use super::amount::Amount;
use super::rejection::Rejection;
use super::transaction::{TransactionInput, TransactionType};
use super::transaction_running_state::{settles, TransactionRunningState};

verus! {

/// Whether a dispute, resolve or chargeback with the given `tx` names
/// `record`: only deposits and withdrawals can be named.
pub open spec fn names(record: TransactionInput, tx: u32) -> bool {
    record.is_transfer() && record.tx == tx
}

/// Whether `index` is the place of the earliest record of `history` that
/// `tx` names.
pub open spec fn is_first_named(history: Seq<TransactionInput>, tx: u32, index: int) -> bool {
    &&& 0 <= index < history.len()
    &&& names(history[index], tx)
    &&& forall|earlier: int| 0 <= earlier < index ==> !names(#[trigger] history[earlier], tx)
}

/// The earliest deposit or withdrawal of `history` with the given `tx`.
pub open spec fn lookup(history: Seq<TransactionInput>, tx: u32) -> Option<TransactionInput> {
    if exists|index: int| is_first_named(history, tx, index) {
        Some(history[choose|index: int| is_first_named(history, tx, index)])
    } else {
        None
    }
}

/// The account after a chargeback of the record `target`.
pub open spec fn charged_back(state: TransactionRunningState, target: TransactionInput) -> Result<
    TransactionRunningState,
    Rejection,
> {
    match target.transaction_type {
        TransactionType::Deposit => match target.amount {
            Some(amount) => state.after_chargeback_deposit(amount@),
            None => Err(Rejection::MissingAmount),
        },
        TransactionType::Withdrawal => match target.amount {
            Some(amount) => state.after_chargeback_withdrawal(amount@),
            None => Err(Rejection::MissingAmount),
        },
        _ => Err(Rejection::InvalidChargebackTarget),
    }
}

/// The account after `record` is applied to `state`, where `target` is the
/// earlier record that `record` names, if there is one.
pub open spec fn applied(
    state: TransactionRunningState,
    record: TransactionInput,
    target: Option<TransactionInput>,
) -> Result<TransactionRunningState, Rejection> {
    match record.transaction_type {
        TransactionType::Deposit => match record.amount {
            Some(amount) => state.deposited(amount@),
            None => Err(Rejection::MissingAmount),
        },
        TransactionType::Withdrawal => match record.amount {
            Some(amount) => state.withdrawn(amount@),
            None => Err(Rejection::MissingAmount),
        },
        TransactionType::Dispute => match target {
            Some(TransactionInput { amount: Some(amount), .. }) => state.after_hold(amount@),
            Some(_) => Err(Rejection::MissingAmount),
            None => Err(Rejection::UnknownTransaction),
        },
        TransactionType::Resolve => match target {
            Some(TransactionInput { amount: Some(amount), .. }) => state.after_release(amount@),
            Some(_) => Err(Rejection::MissingAmount),
            None => Err(Rejection::UnknownTransaction),
        },
        TransactionType::Chargeback => match target {
            Some(found) => charged_back(state, found),
            None => Err(Rejection::UnknownTransaction),
        },
    }
}

/// The account after `record` arrives at a ledger that holds `earlier`: the
/// record is applied, or rejected and the account left as it was.
pub open spec fn recorded(
    state: TransactionRunningState,
    earlier: Seq<TransactionInput>,
    record: TransactionInput,
) -> TransactionRunningState {
    match applied(state, record, lookup(earlier, record.tx)) {
        Ok(next) => next,
        Err(_) => state,
    }
}

/// The account of `client` after the records of `history` have arrived in
/// order, each looking up the records before it.
pub open spec fn replay(client: u16, history: Seq<TransactionInput>) -> TransactionRunningState
    decreases history.len(),
{
    if history.len() == 0 {
        TransactionRunningState {
            client,
            available: Amount { ten_thousandths: 0 },
            held: Amount { ten_thousandths: 0 },
            total: Amount { ten_thousandths: 0 },
            locked: false,
        }
    } else {
        recorded(replay(client, history.drop_last()), history.drop_last(), history.last())
    }
}

/// What a ledger is: the client it belongs to and every record it has
/// received, in order of arrival.
pub struct LedgerView {
    pub client: u16,
    pub history: Seq<TransactionInput>,
}

/// The ledger of one client: every record received for the client, and the
/// account that they add up to.
#[derive(Debug)]
pub struct TransactionProcessor {
    client: u16,
    transactions: Vec<TransactionInput>,
    state: TransactionRunningState,
}

impl View for TransactionProcessor {
    type V = LedgerView;

    closed spec fn view(&self) -> LedgerView {
        LedgerView { client: self.client, history: self.transactions@ }
    }
}

impl TransactionProcessor {
    #[verifier::type_invariant]
    spec fn account_follows_history(self) -> bool {
        self.state == replay(self.client, self.transactions@)
    }

    /// An empty ledger for `client`.
    pub fn new(client: u16) -> (ledger: TransactionProcessor)
        ensures
            ledger@.client == client,
            ledger@.history == Seq::<TransactionInput>::empty(),
    {
        TransactionProcessor {
            client,
            transactions: Vec::new(),
            state: TransactionRunningState::new(client),
        }
    }

    /// The client that the ledger belongs to.
    pub fn client(&self) -> (client: u16)
        ensures
            client == self@.client,
    {
        self.client
    }

    /// Appends `transaction` to the history and applies it to the account.
    /// A rejected record is kept in the history and changes no balance.
    pub fn add_transaction(&mut self, transaction: TransactionInput) -> (outcome: Result<
        (),
        Rejection,
    >)
        ensures
            final(self)@.client == old(self)@.client,
            final(self)@.history == old(self)@.history.push(transaction),
            settles(
                replay(old(self)@.client, old(self)@.history),
                replay(final(self)@.client, final(self)@.history),
                outcome,
                applied(
                    replay(old(self)@.client, old(self)@.history),
                    transaction,
                    lookup(old(self)@.history, transaction.tx),
                ),
            ),
    {
        proof {
            use_type_invariant(&*self);
        }
        let target = self.find_transaction(transaction.tx);
        let mut state = self.state;
        let outcome = Self::process_transaction(&transaction, target, &mut state);
        let mut ledger = TransactionProcessor::new(self.client);
        std::mem::swap(self, &mut ledger);
        let TransactionProcessor { client, mut transactions, state: _ } = ledger;
        transactions.push(transaction);
        proof {
            assert(transactions@.drop_last() == old(self).transactions@);
        }
        *self = TransactionProcessor { client, transactions, state };
        outcome
    }

    /// The account as it stands after every record received so far.
    pub fn process_transactions(&self) -> (state: TransactionRunningState)
        ensures
            state == replay(self@.client, self@.history),
            state.client == self@.client,
    {
        proof {
            use_type_invariant(self);
            lemma_replay_client(self.client, self.transactions@);
        }
        self.state
    }

    /// Applies `transaction` to an account. `target` is the earlier record that
    /// a dispute, resolve or chargeback names, if the ledger holds one; a deposit
    /// or withdrawal does not read it.
    pub fn process_transaction(
        transaction: &TransactionInput,
        target: Option<TransactionInput>,
        transaction_state: &mut TransactionRunningState,
    ) -> (outcome: Result<(), Rejection>)
        ensures
            settles(
                *old(transaction_state),
                *final(transaction_state),
                outcome,
                applied(*old(transaction_state), *transaction, target),
            ),
    {
        match transaction.transaction_type {
            TransactionType::Deposit => match transaction.amount {
                Some(amount) => transaction_state.deposit(amount),
                None => Err(Rejection::MissingAmount),
            },
            TransactionType::Withdrawal => match transaction.amount {
                Some(amount) => transaction_state.withdraw(amount),
                None => Err(Rejection::MissingAmount),
            },
            TransactionType::Dispute => match target {
                Some(existing_transaction) => match existing_transaction.amount {
                    Some(amount) => transaction_state.hold(amount),
                    None => Err(Rejection::MissingAmount),
                },
                None => Err(Rejection::UnknownTransaction),
            },
            TransactionType::Resolve => match target {
                Some(existing_transaction) => match existing_transaction.amount {
                    Some(amount) => transaction_state.release(amount),
                    None => Err(Rejection::MissingAmount),
                },
                None => Err(Rejection::UnknownTransaction),
            },
            TransactionType::Chargeback => match target {
                Some(existing_transaction) => match existing_transaction.transaction_type {
                    TransactionType::Deposit => match existing_transaction.amount {
                        Some(amount) => transaction_state.chargeback_deposit(amount),
                        None => Err(Rejection::MissingAmount),
                    },
                    TransactionType::Withdrawal => match existing_transaction.amount {
                        Some(amount) => transaction_state.chargeback_withdrawal(amount),
                        None => Err(Rejection::MissingAmount),
                    },
                    _ => Err(Rejection::InvalidChargebackTarget),
                },
                None => Err(Rejection::UnknownTransaction),
            },
        }
    }

    /// The earliest deposit or withdrawal in the history with the given `tx`.
    fn find_transaction(&self, tx: u32) -> (found: Option<TransactionInput>)
        ensures
            found == lookup(self@.history, tx),
    {
        let mut index: usize = 0;
        while index < self.transactions.len()
            invariant
                index <= self.transactions.len(),
                forall|earlier: int|
                    0 <= earlier < index ==> !names(#[trigger] self.transactions@[earlier], tx),
            decreases self.transactions.len() - index,
        {
            let transaction = self.transactions[index];
            if (transaction.transaction_type == TransactionType::Deposit
                || transaction.transaction_type == TransactionType::Withdrawal) && transaction.tx
                == tx {
                proof {
                    lemma_lookup_first(self.transactions@, tx, index as int);
                }
                return Some(transaction);
            }
            index += 1;
        }
        None
    }
}

/// The account that a history adds up to belongs to the client of the
/// ledger, whatever the records say.
pub proof fn lemma_replay_client(client: u16, history: Seq<TransactionInput>)
    ensures
        replay(client, history).client == client,
    decreases history.len(),
{
    if history.len() > 0 {
        lemma_replay_client(client, history.drop_last());
    }
}

/// The earliest named record is the one `lookup` gives.
pub proof fn lemma_lookup_first(history: Seq<TransactionInput>, tx: u32, index: int)
    requires
        is_first_named(history, tx, index),
    ensures
        lookup(history, tx) == Some(history[index]),
{
    let chosen = choose|index: int| is_first_named(history, tx, index);
    assert(is_first_named(history, tx, chosen));
    if chosen < index {
        assert(!names(history[chosen], tx));
    } else if index < chosen {
        assert(!names(history[index], tx));
    }
}

} // verus!
