use vstd::prelude::*;
use super::driver::{addressed_to, records_of};
use super::processor::{
    applied, is_first_named, lemma_lookup_first, lookup, names, recorded, replay,
};
use super::rejection::Rejection;
use super::transaction::{TransactionInput, TransactionType};
use super::transaction_running_state::TransactionRunningState;

verus! {

/// A `tx` that no deposit or withdrawal of the history carries is looked up
/// in vain.
pub proof fn law_lookup_unknown(history: Seq<TransactionInput>, tx: u32)
    requires
        forall|index: int| 0 <= index < history.len() ==> !names(#[trigger] history[index], tx),
    ensures
        lookup(history, tx) is None,
{
}

/// A record that is neither deposit nor withdrawal does not change what a
/// later lookup finds.
pub proof fn law_lookup_skips_references(
    history: Seq<TransactionInput>,
    record: TransactionInput,
    tx: u32,
)
    requires
        !record.is_transfer(),
    ensures
        lookup(history.push(record), tx) == lookup(history, tx),
{
    let longer = history.push(record);
    if exists|index: int| is_first_named(history, tx, index) {
        let index = choose|index: int| is_first_named(history, tx, index);
        assert(longer[index] == history[index]);
        assert forall|earlier: int| 0 <= earlier < index implies !names(
            #[trigger] longer[earlier],
            tx,
        ) by {
            assert(longer[earlier] == history[earlier]);
        }
        lemma_lookup_first(longer, tx, index);
        lemma_lookup_first(history, tx, index);
    } else {
        if exists|index: int| is_first_named(longer, tx, index) {
            let index = choose|index: int| is_first_named(longer, tx, index);
            assert(index < history.len());
            assert(longer[index] == history[index]);
            assert forall|earlier: int| 0 <= earlier < index implies !names(
                #[trigger] history[earlier],
                tx,
            ) by {
                assert(longer[earlier] == history[earlier]);
            }
            assert(is_first_named(history, tx, index));
        }
    }
}

/// Whatever records a ledger receives, the total of its account is what is
/// available plus what is held.
pub proof fn law_total_is_available_plus_held(client: u16, history: Seq<TransactionInput>)
    ensures
        replay(client, history).balanced(),
    decreases history.len(),
{
    if history.len() > 0 {
        law_total_is_available_plus_held(client, history.drop_last());
    }
}

/// While a ledger has received nothing but deposits and withdrawals, nothing
/// is held: after each of them the held balance is zero and the total is the
/// available balance.
pub proof fn law_transfers_hold_nothing(
    client: u16,
    history: Seq<TransactionInput>,
    received: int,
)
    requires
        0 <= received <= history.len(),
        forall|index: int| 0 <= index < history.len() ==> (#[trigger] history[index]).is_transfer(),
    ensures
        replay(client, history.take(received)).held@ == 0,
        replay(client, history.take(received)).total@ == replay(
            client,
            history.take(received),
        ).available@ + replay(client, history.take(received)).held@,
    decreases received,
{
    if received > 0 {
        law_transfers_hold_nothing(client, history, received - 1);
        assert(history.take(received).drop_last() == history.take(received - 1));
        assert(history.take(received).last() == history[received - 1]);
    }
}

/// A withdrawal is applied only where its amount is available.
pub proof fn law_withdrawal_needs_funds(
    state: TransactionRunningState,
    record: TransactionInput,
    target: Option<TransactionInput>,
)
    requires
        record.transaction_type is Withdrawal,
        applied(state, record, target) is Ok,
    ensures
        record.amount is Some,
        record.amount->0@ <= state.available@,
{
}

/// A dispute of a deposit of amount A moves exactly A from the available
/// balance to the held balance and leaves the total as it is.
pub proof fn law_dispute_moves_amount(
    state: TransactionRunningState,
    earlier: Seq<TransactionInput>,
    record: TransactionInput,
    target: TransactionInput,
)
    requires
        state.balanced(),
        record.transaction_type is Dispute,
        lookup(earlier, record.tx) == Some(target),
        target.transaction_type is Deposit,
        target.amount is Some,
        applied(state, record, lookup(earlier, record.tx)) is Ok,
    ensures
        recorded(state, earlier, record).available@ == state.available@ - target.amount->0@,
        recorded(state, earlier, record).held@ == state.held@ + target.amount->0@,
        recorded(state, earlier, record).total == state.total,
        recorded(state, earlier, record).locked == state.locked,
{
}

/// A resolve undoes the dispute before it: the available and the held
/// balance are what they were before the dispute, and the total has not
/// moved.
pub proof fn law_resolve_restores(
    state: TransactionRunningState,
    earlier: Seq<TransactionInput>,
    dispute: TransactionInput,
    resolve: TransactionInput,
)
    requires
        state.balanced(),
        dispute.transaction_type is Dispute,
        resolve.transaction_type is Resolve,
        resolve.tx == dispute.tx,
        applied(state, dispute, lookup(earlier, dispute.tx)) is Ok,
    ensures
        applied(
            recorded(state, earlier, dispute),
            resolve,
            lookup(earlier.push(dispute), resolve.tx),
        ) is Ok,
        recorded(recorded(state, earlier, dispute), earlier.push(dispute), resolve) == state,
        recorded(state, earlier, dispute).total == state.total,
{
    law_lookup_skips_references(earlier, dispute, dispute.tx);
}

/// A chargeback of a deposit of amount A takes A from the total and from
/// the held balance and locks the account; a chargeback of a withdrawal of
/// amount A adds A to the total instead.
pub proof fn law_chargeback_settles(
    state: TransactionRunningState,
    earlier: Seq<TransactionInput>,
    record: TransactionInput,
    target: TransactionInput,
)
    requires
        record.transaction_type is Chargeback,
        lookup(earlier, record.tx) == Some(target),
        target.amount is Some,
        applied(state, record, lookup(earlier, record.tx)) is Ok,
    ensures
        target.transaction_type is Deposit ==> recorded(state, earlier, record).total@
            == state.total@ - target.amount->0@,
        target.transaction_type is Withdrawal ==> recorded(state, earlier, record).total@
            == state.total@ + target.amount->0@,
        recorded(state, earlier, record).held@ == state.held@ - target.amount->0@,
        recorded(state, earlier, record).locked,
{
}

/// A dispute, resolve or chargeback whose `tx` no deposit or withdrawal of
/// the ledger carries is rejected, and the account stays exactly as it was.
pub proof fn law_unknown_reference_changes_nothing(
    state: TransactionRunningState,
    earlier: Seq<TransactionInput>,
    record: TransactionInput,
)
    requires
        !record.is_transfer(),
        forall|index: int|
            0 <= index < earlier.len() ==> !names(#[trigger] earlier[index], record.tx),
    ensures
        applied(state, record, lookup(earlier, record.tx)) == Err::<
            TransactionRunningState,
            Rejection,
        >(Rejection::UnknownTransaction),
        recorded(state, earlier, record) == state,
{
}

/// A record changes the history of its own client and of no other, so the
/// account of a client does not depend on where the records of other
/// clients stand in the input.
pub proof fn law_clients_do_not_interfere(
    records: Seq<TransactionInput>,
    record: TransactionInput,
    client: u16,
)
    ensures
        record.client == client ==> records_of(records.push(record), client) == records_of(
            records,
            client,
        ).push(record),
        record.client != client ==> records_of(records.push(record), client) == records_of(
            records,
            client,
        ),
{
    records.lemma_filter_push(record, addressed_to(client));
}

/// Once a chargeback has locked an account, it stays locked.
pub proof fn law_lock_is_permanent(
    state: TransactionRunningState,
    earlier: Seq<TransactionInput>,
    record: TransactionInput,
)
    requires
        state.locked,
    ensures
        recorded(state, earlier, record).locked,
{
}

} // verus!
