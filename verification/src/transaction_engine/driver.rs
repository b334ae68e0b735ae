use vstd::prelude::*;
use super::processor::{applied, lookup, replay};
use super::processor_state::{history_of, summarizes, TransactionEngineProcessorState};
use super::rejection::Rejection;
use super::transaction::TransactionInput;
use super::transaction_running_state::{reports, TransactionRunningState};

verus! {

/// The test that picks the records of `client`.
pub open spec fn addressed_to(client: u16) -> spec_fn(TransactionInput) -> bool {
    |record: TransactionInput| record.client == client
}

/// The records of `records` that are addressed to `client`, in their order.
pub open spec fn records_of(records: Seq<TransactionInput>, client: u16) -> Seq<TransactionInput> {
    records.filter(addressed_to(client))
}

/// Whether some record of `records` is addressed to `client`.
pub open spec fn has_client(records: Seq<TransactionInput>, client: u16) -> bool {
    exists|index: int| 0 <= index < records.len() && (#[trigger] records[index]).client == client
}

/// The history of each client that `records` names.
pub open spec fn histories(records: Seq<TransactionInput>) -> Map<u16, Seq<TransactionInput>> {
    Map::new(|client: u16| has_client(records, client), |client: u16| records_of(records, client))
}

/// What becomes of the record at `index` when `records` arrive in order:
/// the account of its client once it is applied, or why it is rejected.
pub open spec fn expected_at(records: Seq<TransactionInput>, index: int) -> Result<
    TransactionRunningState,
    Rejection,
> {
    let record = records[index];
    let earlier = records_of(records.take(index), record.client);
    applied(replay(record.client, earlier), record, lookup(earlier, record.tx))
}

/// A client without records has an empty history.
pub proof fn lemma_records_of_unknown_client(records: Seq<TransactionInput>, client: u16)
    requires
        !has_client(records, client),
    ensures
        records_of(records, client) == Seq::<TransactionInput>::empty(),
    decreases records.len(),
{
    reveal(Seq::filter);
    if records.len() > 0 {
        assert(records[records.len() - 1].client != client);
        assert forall|index: int| 0 <= index < records.drop_last().len() implies (
        #[trigger] records.drop_last()[index]).client != client by {
            assert(records[index].client != client);
        }
        lemma_records_of_unknown_client(records.drop_last(), client);
    }
}

/// One more record extends the history of its client and no other.
pub proof fn lemma_histories_push(records: Seq<TransactionInput>, record: TransactionInput)
    ensures
        history_of(histories(records), record.client) == records_of(records, record.client),
        histories(records.push(record)) == histories(records).insert(
            record.client,
            records_of(records, record.client).push(record),
        ),
{
    let longer = records.push(record);
    if !has_client(records, record.client) {
        lemma_records_of_unknown_client(records, record.client);
    }
    assert(longer[records.len() as int].client == record.client);
    assert forall|client: u16| has_client(longer, client) <==> (client == record.client
        || has_client(records, client)) by {
        if has_client(records, client) {
            let index = choose|index: int|
                0 <= index < records.len() && (#[trigger] records[index]).client == client;
            assert(longer[index].client == client);
        }
        if has_client(longer, client) && client != record.client {
            let index = choose|index: int|
                0 <= index < longer.len() && (#[trigger] longer[index]).client == client;
            assert(records[index].client == client);
        }
    }
    assert forall|client: u16| #[trigger]
        records_of(longer, client) == (if client == record.client {
            records_of(records, client).push(record)
        } else {
            records_of(records, client)
        }) by {
        records.lemma_filter_push(record, addressed_to(client));
    }
    assert(histories(longer) =~= histories(records).insert(
        record.client,
        records_of(records, record.client).push(record),
    ));
}

/// Runs a batch of records through a fresh registry, in order, and reports
/// the final account of every client that the batch names, together with
/// the outcome of each record. The accounts come in no particular order.
pub fn process_transaction_file(transactions: &Vec<TransactionInput>) -> (report: (
    Vec<TransactionRunningState>,
    Vec<Result<(), Rejection>>,
))
    ensures
        summarizes(report.0@, histories(transactions@)),
        report.1@.len() == transactions@.len(),
        forall|j: int|
            0 <= j < transactions@.len() ==> reports(
                #[trigger] report.1@[j],
                expected_at(transactions@, j),
            ),
{
    let mut engine = TransactionEngineProcessorState::new();
    let mut outcomes: Vec<Result<(), Rejection>> = Vec::new();
    let mut index: usize = 0;
    proof {
        assert(engine@ =~= histories(transactions@.take(0)));
    }
    while index < transactions.len()
        invariant
            index <= transactions.len(),
            engine@ == histories(transactions@.take(index as int)),
            outcomes@.len() == index,
            forall|j: int|
                0 <= j < index ==> reports(#[trigger] outcomes@[j], expected_at(transactions@, j)),
        decreases transactions.len() - index,
    {
        let transaction = transactions[index];
        proof {
            lemma_histories_push(transactions@.take(index as int), transaction);
            assert(transactions@.take(index + 1) =~= transactions@.take(index as int).push(
                transaction,
            ));
        }
        let outcome = engine.add_transaction(transaction);
        outcomes.push(outcome);
        index += 1;
    }
    proof {
        assert(transactions@.take(index as int) =~= transactions@);
    }
    let accounts = engine.finalize();
    (accounts, outcomes)
}

} // verus!
