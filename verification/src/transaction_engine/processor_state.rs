use vstd::prelude::*;
use std::collections::HashMap;
use vstd::std_specs::iter::IteratorSpec;
use super::processor::{applied, lookup, replay, TransactionProcessor};
use super::rejection::Rejection;
use super::transaction::TransactionInput;
use super::transaction_running_state::{settles, TransactionRunningState};

verus! {

/// The ledgers of all clients seen so far, one per client.
#[derive(Debug)]
pub struct TransactionEngineProcessorState {
    processor_state: HashMap<u16, TransactionProcessor>,
}

/// The history that `histories` holds for `client`: empty for a client not
/// yet seen.
pub open spec fn history_of(histories: Map<u16, Seq<TransactionInput>>, client: u16) -> Seq<
    TransactionInput,
> {
    if histories.contains_key(client) {
        histories[client]
    } else {
        Seq::empty()
    }
}

/// Whether `accounts` holds an account of `client`.
pub open spec fn has_account(accounts: Seq<TransactionRunningState>, client: u16) -> bool {
    exists|i: int| 0 <= i < accounts.len() && (#[trigger] accounts[i]).client == client
}

/// Whether `accounts` reports `histories`: one account for each client, and
/// each the account that the client's history adds up to.
pub open spec fn summarizes(
    accounts: Seq<TransactionRunningState>,
    histories: Map<u16, Seq<TransactionInput>>,
) -> bool {
    &&& forall|i: int|
        0 <= i < accounts.len() ==> histories.contains_key((#[trigger] accounts[i]).client)
            && accounts[i] == replay(accounts[i].client, histories[accounts[i].client])
    &&& forall|client: u16| #[trigger]
        histories.contains_key(client) ==> has_account(accounts, client)
    &&& forall|i: int, j: int|
        0 <= i < j < accounts.len() ==> (#[trigger] accounts[i]).client != (
        #[trigger] accounts[j]).client
}

impl View for TransactionEngineProcessorState {
    type V = Map<u16, Seq<TransactionInput>>;

    /// The history of each client seen so far.
    closed spec fn view(&self) -> Map<u16, Seq<TransactionInput>> {
        Map::new(
            |client: u16| self.processor_state@.contains_key(client),
            |client: u16| self.processor_state@[client]@.history,
        )
    }
}

impl TransactionEngineProcessorState {
    #[verifier::type_invariant]
    spec fn ledgers_match_clients(self) -> bool {
        forall|client: u16| #[trigger]
            self.processor_state@.contains_key(client) ==> self.processor_state@[client]@.client
                == client
    }

    /// A registry without clients.
    pub fn new() -> (engine: TransactionEngineProcessorState)
        ensures
            engine@ == Map::<u16, Seq<TransactionInput>>::empty(),
    {
        TransactionEngineProcessorState { processor_state: HashMap::new() }
    }

    /// Hands `transaction` to the ledger of its client, which is created
    /// first if the client is new. No other ledger changes.
    pub fn add_transaction(&mut self, transaction: TransactionInput) -> (outcome: Result<
        (),
        Rejection,
    >)
        ensures
            final(self)@ == old(self)@.insert(
                transaction.client,
                history_of(old(self)@, transaction.client).push(transaction),
            ),
            settles(
                replay(transaction.client, history_of(old(self)@, transaction.client)),
                replay(transaction.client, history_of(final(self)@, transaction.client)),
                outcome,
                applied(
                    replay(transaction.client, history_of(old(self)@, transaction.client)),
                    transaction,
                    lookup(history_of(old(self)@, transaction.client), transaction.tx),
                ),
            ),
    {
        broadcast use vstd::std_specs::hash::group_hash_axioms;

        proof {
            use_type_invariant(&*self);
        }
        let mut ledgers: HashMap<u16, TransactionProcessor> = HashMap::new();
        std::mem::swap(&mut self.processor_state, &mut ledgers);
        let ledger = ledgers.entry(transaction.client).or_insert(
            TransactionProcessor::new(transaction.client),
        );
        let outcome = ledger.add_transaction(transaction);
        std::mem::swap(&mut self.processor_state, &mut ledgers);
        outcome
    }

    /// The account of every client seen so far, one for each, in no
    /// particular order.
    pub fn finalize(&self) -> (accounts: Vec<TransactionRunningState>)
        ensures
            summarizes(accounts@, self@),
    {
        broadcast use vstd::std_specs::hash::group_hash_axioms;

        proof {
            use_type_invariant(self);
        }
        let ledgers = &self.processor_state;
        let mut accounts: Vec<TransactionRunningState> = Vec::new();
        for entry in iter: ledgers.iter()
            invariant
                iter.seq() == ledgers.iter().remaining(),
                accounts@.len() == iter.index(),
                forall|i: int|
                    0 <= i < accounts@.len() ==> (#[trigger] accounts@[i]).client
                        == *iter.seq()[i].0 && accounts@[i] == replay(
                        *iter.seq()[i].0,
                        iter.seq()[i].1@.history,
                    ),
                forall|client: u16| #[trigger]
                    ledgers@.contains_key(client) ==> ledgers@[client]@.client == client,
        {
            let (client, ledger) = entry;
            proof {
                assert(ledgers@.contains_key(*client));
            }
            let account = ledger.process_transactions();
            accounts.push(account);
        }
        proof {
            let pairs = ledgers.iter().remaining();
            assert forall|i: int| 0 <= i < accounts@.len() implies self@.contains_key(
                (#[trigger] accounts@[i]).client,
            ) && accounts@[i] == replay(accounts@[i].client, self@[accounts@[i].client]) by {
                assert(ledgers@.contains_key(*pairs[i].0));
            }
            assert forall|client: u16| #[trigger] self@.contains_key(client) implies has_account(
                accounts@,
                client,
            ) by {
                assert(ledgers@.contains_key(client));
                let pair = (&client, &ledgers@[client]);
                assert(pairs.contains(pair));
                let i = choose|i: int| 0 <= i < pairs.len() && pairs[i] == pair;
                assert(accounts@[i].client == client);
            }
            assert forall|i: int, j: int| 0 <= i < j < accounts@.len() implies (
            #[trigger] accounts@[i]).client != (#[trigger] accounts@[j]).client by {
                assert(ledgers@.contains_key(*pairs[i].0));
                assert(ledgers@.contains_key(*pairs[j].0));
                if *pairs[i].0 == *pairs[j].0 {
                    assert(pairs[i] == pairs[j]);
                }
            }
        }
        accounts
    }

    /// The ledgers, by client.
    pub fn get_state(&self) -> (ledgers: &HashMap<u16, TransactionProcessor>)
        ensures
            ledgers@.dom() == self@.dom(),
            forall|client: u16| #[trigger]
                ledgers@.contains_key(client) ==> ledgers@[client]@.client == client
                    && ledgers@[client]@.history == self@[client],
    {
        proof {
            use_type_invariant(self);
        }
        &self.processor_state
    }
}

} // verus!
