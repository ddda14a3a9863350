//! Whole runs of an attempt: what holds after any sequence of answers from
//! the chain client, whatever the client answers.

use crate::address::TxId;
use crate::amount::Wei;
use crate::executor::{Action, Attempt, Event, Progress, Stage};
use crate::fee::{FeeEstimate, TRANSFER_GAS_LIMIT};
use crate::transfer::{TransferError, TransferOutcome, TransferRequest};
use vstd::prelude::*;

verus! {

/// Where an attempt stands after one more event. An attempt that has ended
/// stays as it ended.
pub open spec fn advance(progress: Progress, event: Event) -> Progress {
    match progress {
        Progress::Pending(attempt) => attempt.after(event),
        Progress::Finished(_) => progress,
    }
}

/// Where an attempt stands after a sequence of events, taken in order.
pub open spec fn run(start: Progress, events: Seq<Event>) -> Progress
    decreases events.len(),
{
    if events.len() == 0 {
        start
    } else {
        advance(run(start, events.drop_last()), events.last())
    }
}

/// Whether every event of the sequence can be taken by the attempt as it
/// stands when the event arrives.
pub open spec fn admissible(start: Progress, events: Seq<Event>) -> bool {
    forall|k: int|
        0 <= k < events.len() ==> (#[trigger] run(start, events.take(k)) matches Progress::Pending(
            attempt,
        ) ==> attempt.spec_accepts(&events[k]))
}

/// Whether a submission is due: the driver has been handed a request to sign
/// and broadcast.
pub open spec fn requests_submission(progress: Progress) -> bool {
    progress matches Progress::Pending(attempt) && attempt.stage is AwaitingSubmission
}

/// Whether the event is the client's word that it broadcast the transaction `tx_id`.
pub open spec fn reports_submission(event: Event, tx_id: TxId) -> bool {
    event == Event::Submission(Ok(tx_id))
}

/// A run over a longer sequence is the run over its front, advanced by the
/// events that follow.
pub proof fn lemma_run_split(start: Progress, front: Seq<Event>, back: Seq<Event>)
    ensures
        run(start, front + back) == run(run(start, front), back),
    decreases back.len(),
{
    if back.len() == 0 {
        assert(front + back =~= front);
    } else {
        assert((front + back).drop_last() =~= front + back.drop_last());
        lemma_run_split(start, front, back.drop_last());
    }
}

/// A run over one more event is the run so far, advanced by that event.
pub proof fn lemma_run_push(start: Progress, events: Seq<Event>, event: Event)
    ensures
        run(start, events.push(event)) == advance(run(start, events), event),
{
    assert(events.push(event).drop_last() =~= events);
}

/// A run over one event is one step.
pub proof fn lemma_run_one(start: Progress, event: Event)
    ensures
        run(start, seq![event]) == advance(start, event),
{
    assert(seq![event] =~= Seq::<Event>::empty().push(event));
    lemma_run_push(start, Seq::<Event>::empty(), event);
}

/// An attempt that has ended never changes again, whatever arrives: an
/// outcome once `Confirmed` stays `Confirmed`, and an error stays that error.
pub proof fn law_finished_is_final(
    result: Result<TransferOutcome, TransferError>,
    events: Seq<Event>,
)
    ensures
        run(Progress::Finished(result), events) == Progress::Finished(result),
    decreases events.len(),
{
    if events.len() > 0 {
        law_finished_is_final(result, events.drop_last());
    }
}

/// Every attempt that a run reaches from a well-formed attempt is well formed.
///
/// So whenever a submission is due, the request caps the fee at exactly the
/// quoted gas price plus the priority fee, the fee estimate beside it is
/// exactly the quoted gas price times the gas limit of a plain transfer, and
/// the balance that was read covers the amount.
pub proof fn law_requests_are_priced_exactly(start: Attempt, events: Seq<Event>)
    requires
        start.wf(),
        admissible(Progress::Pending(start), events),
    ensures
        run(Progress::Pending(start), events) matches Progress::Pending(attempt) ==> {
            &&& attempt.wf()
            &&& attempt.sender == start.sender
            &&& attempt.recipient == start.recipient
            &&& attempt.amount == start.amount
            &&& attempt.chain_id == start.chain_id
            &&& attempt.config == start.config
            &&& attempt.stage matches Stage::AwaitingSubmission { request, estimate } ==> {
                &&& request.max_fee@ == estimate.gas_price@ + start.config.priority_fee@
                &&& estimate.fee@ == estimate.gas_price@ * TRANSFER_GAS_LIMIT
                &&& request.gas_limit == TRANSFER_GAS_LIMIT
                &&& request.amount@ <= request.sender.balance@
            }
        },
    decreases events.len(),
{
    if events.len() > 0 {
        let front = events.drop_last();
        assert forall|k: int| 0 <= k < front.len() implies (#[trigger] run(
            Progress::Pending(start),
            front.take(k),
        ) matches Progress::Pending(attempt) ==> attempt.spec_accepts(&front[k])) by {
            assert(front.take(k) =~= events.take(k));
        }
        law_requests_are_priced_exactly(start, front);
        assert(events.take(events.len() - 1) =~= front);
        if let Progress::Pending(attempt) = run(Progress::Pending(start), front) {
            assert(attempt.spec_accepts(&events.last()));
            if let Stage::AwaitingGasPrice { balance } = attempt.stage {
                if let Event::GasPrice(Ok(gas_price)) = events.last() {
                    FeeEstimate::lemma_at_wf(gas_price);
                    TransferRequest::lemma_build_wf(
                        crate::transfer::Account { address: attempt.sender, balance },
                        attempt.recipient,
                        attempt.amount,
                        gas_price,
                        attempt.config.priority_fee,
                    );
                }
            }
        }
    }
}

/// Where no answer to the balance query reports a balance that covers the
/// amount, no submission is ever due and the attempt never has an outcome:
/// it waits for the balance or has ended with an error.
pub proof fn law_no_submission_without_funds(start: Attempt, events: Seq<Event>)
    requires
        start.stage is AwaitingBalance,
        forall|k: int|
            0 <= k < events.len() ==> (#[trigger] events[k] matches Event::Balance(Ok(balance))
                ==> balance@ < start.amount@),
    ensures
        forall|k: int|
            0 <= k <= events.len() ==> !requests_submission(
                #[trigger] run(Progress::Pending(start), events.take(k)),
            ),
        run(Progress::Pending(start), events) == Progress::Pending(start) || run(
            Progress::Pending(start),
            events,
        ) matches Progress::Finished(Err(_)),
    decreases events.len(),
{
    if events.len() == 0 {
        assert forall|k: int| 0 <= k <= events.len() implies !requests_submission(
            #[trigger] run(Progress::Pending(start), events.take(k)),
        ) by {
            assert(events.take(k) =~= events);
        }
    } else {
        let front = events.drop_last();
        law_no_submission_without_funds(start, front);
        assert(events[events.len() - 1] == events.last());
        assert forall|k: int| 0 <= k <= events.len() implies !requests_submission(
            #[trigger] run(Progress::Pending(start), events.take(k)),
        ) by {
            if k < events.len() {
                assert(events.take(k) =~= front.take(k));
            } else {
                assert(events.take(k) =~= events);
            }
        }
    }
}

/// Where the client answers the balance query with a balance below the
/// amount, the attempt ends there with `InsufficientFunds`, which names both,
/// and no submission is due at any point of the run, whatever follows.
pub proof fn law_insufficient_funds_never_submits(start: Attempt, balance: Wei, rest: Seq<Event>)
    requires
        start.stage is AwaitingBalance,
        balance@ < start.amount@,
    ensures
        ({
            let events = seq![Event::Balance(Ok(balance))] + rest;
            &&& run(Progress::Pending(start), events) == Progress::Finished(
                Err(TransferError::InsufficientFunds { have: balance, need: start.amount }),
            )
            &&& forall|k: int|
                0 <= k <= events.len() ==> !requests_submission(
                    #[trigger] run(Progress::Pending(start), events.take(k)),
                )
        }),
{
    let first = seq![Event::Balance(Ok(balance))];
    let events = first + rest;
    lemma_run_one(Progress::Pending(start), Event::Balance(Ok(balance)));
    assert forall|k: int| 0 <= k <= events.len() implies !requests_submission(
        #[trigger] run(Progress::Pending(start), events.take(k)),
    ) by {
        if k == 0 {
            assert(events.take(0) =~= Seq::<Event>::empty());
        } else {
            assert(events.take(k) =~= first + rest.take(k - 1));
            lemma_run_split(Progress::Pending(start), first, rest.take(k - 1));
            law_finished_is_final(
                Err(TransferError::InsufficientFunds { have: balance, need: start.amount }),
                rest.take(k - 1),
            );
        }
    }
    lemma_run_split(Progress::Pending(start), first, rest);
    law_finished_is_final(
        Err(TransferError::InsufficientFunds { have: balance, need: start.amount }),
        rest,
    );
}

/// The transaction that an attempt's outcome names is one that the client
/// reported to this very run: an attempt that starts before its submission
/// takes its identifier from nowhere else.
pub proof fn law_outcome_names_own_submission(start: Attempt, events: Seq<Event>)
    requires
        !(start.stage is AwaitingReceipt),
    ensures
        run(Progress::Pending(start), events) matches Progress::Pending(attempt) ==> (
        attempt.stage matches Stage::AwaitingReceipt { tx_id } ==> exists|i: int|
            0 <= i < events.len() && reports_submission(#[trigger] events[i], tx_id)),
        run(Progress::Pending(start), events) matches Progress::Finished(Ok(outcome))
            ==> exists|i: int|
            0 <= i < events.len() && reports_submission(#[trigger] events[i], outcome.tx_id()),
    decreases events.len(),
{
    if events.len() > 0 {
        let front = events.drop_last();
        law_outcome_names_own_submission(start, front);
        let before = run(Progress::Pending(start), front);
        let now = run(Progress::Pending(start), events);
        let last = events.len() - 1;
        assert(events[last] == events.last());
        match before {
            Progress::Pending(attempt) => {
                if let Stage::AwaitingReceipt { tx_id } = attempt.stage {
                    let i = choose|i: int|
                        0 <= i < front.len() && reports_submission(#[trigger] front[i], tx_id);
                    assert(events[i] == front[i]);
                } else {
                    if let Progress::Pending(next) = now {
                        if let Stage::AwaitingReceipt { tx_id } = next.stage {
                            assert(reports_submission(events[last], tx_id));
                        }
                    }
                }
            },
            Progress::Finished(Ok(outcome)) => {
                let i = choose|i: int|
                    0 <= i < front.len() && reports_submission(
                        #[trigger] front[i],
                        outcome.tx_id(),
                    );
                assert(events[i] == front[i]);
            },
            Progress::Finished(Err(_)) => {},
        }
    }
}

/// Two runs of the same attempt against a client that never hands out one
/// identifier twice end with outcomes that name different transactions:
/// nothing of one run is kept for the other.
pub proof fn law_attempts_are_independent(
    start: Attempt,
    first: Seq<Event>,
    second: Seq<Event>,
    one: TransferOutcome,
    other: TransferOutcome,
)
    requires
        !(start.stage is AwaitingReceipt),
        run(Progress::Pending(start), first) == Progress::Finished(Ok(one)),
        run(Progress::Pending(start), second) == Progress::Finished(Ok(other)),
        forall|i: int, j: int|
            0 <= i < first.len() && 0 <= j < second.len() && (#[trigger] first[i] matches Event::Submission(
                Ok(_),
            )) ==> first[i] != #[trigger] second[j],
    ensures
        one.tx_id() != other.tx_id(),
{
    law_outcome_names_own_submission(start, first);
    law_outcome_names_own_submission(start, second);
}

/// Where the balance covers the amount and every call succeeds, the attempt
/// asks for the balance, the gas price, the submission and the receipt in
/// turn; its outcome is `Submitted` once the client has taken the request,
/// and it ends `Confirmed` in the block of the receipt, however late that
/// receipt comes.
pub proof fn law_covered_transfer_is_confirmed(
    start: Attempt,
    balance: Wei,
    gas_price: Wei,
    tx_id: TxId,
    block_number: u64,
    waited_ms: u64,
)
    requires
        start.stage is AwaitingBalance,
        start.amount@ <= balance@,
    ensures
        ({
            let answers = seq![
                Event::Balance(Ok(balance)),
                Event::GasPrice(Ok(gas_price)),
                Event::Submission(Ok(tx_id)),
            ];
            let receipt = Event::Receipt { block_number: Some(block_number), waited_ms };
            &&& run(Progress::Pending(start), answers.take(1)) matches Progress::Pending(attempt)
                && attempt.spec_action() == Action::QueryGasPrice
            &&& requests_submission(run(Progress::Pending(start), answers.take(2)))
            &&& run(Progress::Pending(start), answers) matches Progress::Pending(attempt)
                && attempt.spec_outcome() == Some(TransferOutcome::Submitted { tx_id })
                && attempt.spec_action() == (Action::PollReceipt { tx_id })
            &&& run(Progress::Pending(start), answers.push(receipt)) == Progress::Finished(
                Ok(TransferOutcome::Confirmed { tx_id, block_number }),
            )
        }),
{
    let first = Event::Balance(Ok(balance));
    let second = Event::GasPrice(Ok(gas_price));
    let third = Event::Submission(Ok(tx_id));
    let answers = seq![first, second, third];
    let receipt = Event::Receipt { block_number: Some(block_number), waited_ms };
    let none = Seq::<Event>::empty();
    assert(answers.take(1) =~= none.push(first));
    assert(answers.take(2) =~= none.push(first).push(second));
    assert(answers =~= none.push(first).push(second).push(third));
    lemma_run_push(Progress::Pending(start), none, first);
    lemma_run_push(Progress::Pending(start), none.push(first), second);
    lemma_run_push(Progress::Pending(start), none.push(first).push(second), third);
    lemma_run_push(Progress::Pending(start), answers, receipt);
}

/// A wait for confirmation that is given up, because it has run out without
/// a receipt or because the caller cancels it, ends the attempt with the
/// outcome `Dropped`, which names the submitted transaction: the transfer
/// may still be pending, and that is no error.
pub proof fn law_abandoned_wait_is_dropped(attempt: Attempt, tx_id: TxId, waited_ms: u64)
    requires
        attempt.stage == (Stage::AwaitingReceipt { tx_id }),
    ensures
        attempt.after(Event::Cancelled) == Progress::Finished(
            Ok(TransferOutcome::Dropped { tx_id }),
        ),
        attempt.expired(waited_ms) ==> attempt.after(
            Event::Receipt { block_number: None, waited_ms },
        ) == Progress::Finished(Ok(TransferOutcome::Dropped { tx_id })),
        !attempt.expired(waited_ms) ==> attempt.after(
            Event::Receipt { block_number: None, waited_ms },
        ) == Progress::Pending(attempt),
{
}

/// Whether nothing has been handed over for broadcast yet: the attempt waits
/// for the balance or the gas price, or has ended with an error other than a
/// failed submission.
pub open spec fn before_submission(progress: Progress) -> bool {
    match progress {
        Progress::Pending(attempt) => attempt.stage is AwaitingBalance
            || attempt.stage is AwaitingGasPrice,
        Progress::Finished(Err(error)) => !error.spec_may_have_been_broadcast(),
        Progress::Finished(Ok(_)) => false,
    }
}

/// An attempt that ends with any error but a failed submission has never
/// asked for a submission: nothing was broadcast, and the transfer can be
/// attempted again without paying twice.
pub proof fn law_early_errors_precede_submission(start: Attempt, events: Seq<Event>)
    requires
        before_submission(run(Progress::Pending(start), events)),
    ensures
        forall|k: int|
            0 <= k <= events.len() ==> !requests_submission(
                #[trigger] run(Progress::Pending(start), events.take(k)),
            ),
    decreases events.len(),
{
    if events.len() == 0 {
        assert forall|k: int| 0 <= k <= events.len() implies !requests_submission(
            #[trigger] run(Progress::Pending(start), events.take(k)),
        ) by {
            assert(events.take(k) =~= events);
        }
    } else {
        let front = events.drop_last();
        law_early_errors_precede_submission(start, front);
        assert forall|k: int| 0 <= k <= events.len() implies !requests_submission(
            #[trigger] run(Progress::Pending(start), events.take(k)),
        ) by {
            if k < events.len() {
                assert(events.take(k) =~= front.take(k));
            } else {
                assert(events.take(k) =~= events);
            }
        }
    }
}

/// An attempt ends well only as `Confirmed` or `Dropped`: `Submitted` is the
/// outcome on the way, never the last word.
pub proof fn law_final_outcome_is_settled(start: Attempt, events: Seq<Event>)
    ensures
        run(Progress::Pending(start), events) matches Progress::Finished(Ok(outcome))
            ==> outcome is Confirmed || outcome is Dropped,
    decreases events.len(),
{
    if events.len() > 0 {
        law_final_outcome_is_settled(start, events.drop_last());
    }
}

/// No attempt ends with the error `Timeout`, whatever the client answers.
pub proof fn law_timeout_is_not_an_error(start: Attempt, events: Seq<Event>)
    ensures
        run(Progress::Pending(start), events) != Progress::Finished(Err(TransferError::Timeout)),
    decreases events.len(),
{
    if events.len() > 0 {
        law_timeout_is_not_an_error(start, events.drop_last());
    }
}

} // verus!
