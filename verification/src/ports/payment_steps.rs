//! The order in which a store processes a confirmed payment. The event's id
//! is stored first, so a repeated event is recognised and changes nothing;
//! only then is the order read and checked, and only an accepted payment
//! marks it paid, by an update that must find the order still awaiting
//! payment.
use vstd::prelude::*;

use crate::ports::order_repository::{
    payment_verdict, validate_payment, PaymentEventOutcome, PaymentValidation,
    StoredOrderPayment, VerifiedPayment,
};
use crate::timestamp::Timestamp;

verus! {

/// Where a store is in processing a payment. `strict` stores check that an
/// order update changed exactly one order.
#[derive(Debug, Clone, Copy, PartialEq, Eq, Structural)]
pub enum PaymentProgress {
    /// The event's id is being stored.
    StoringEvent { strict: bool },
    /// The event is stored; the order is being read.
    ReadingOrder { strict: bool },
    /// The order is being updated towards `outcome`.
    UpdatingOrder { outcome: PaymentEventOutcome, strict: bool },
    /// Nothing more is done.
    Done,
}

/// What the store answered to the last step.
#[derive(Debug, Clone)]
pub enum PaymentStoreAnswer {
    /// The event's id was stored.
    EventInserted,
    /// The event's id was stored before.
    EventDuplicate,
    /// No order has the payment's order id.
    OrderMissing,
    /// The order, as stored.
    OrderFound(StoredOrderPayment),
    /// The order update changed this many orders.
    Updated(u64),
}

/// What the store does next.
#[derive(Debug, Clone, Copy, PartialEq, Eq, Structural)]
pub enum PaymentStep {
    /// Store the event's id, refusing one stored before.
    InsertEvent,
    /// Read the payment's order.
    LoadOrder,
    /// Mark the order paid, where it still awaits payment.
    MarkPaid,
    /// Mark the order expired, where it still awaits payment.
    MarkExpired,
    /// Record the outcome, keep what was written, and answer it.
    Finish(PaymentEventOutcome),
    /// Undo what was written and answer the outcome.
    Abort(PaymentEventOutcome),
    /// The answer does not fit the step that was asked for.
    OutOfOrder,
}

/// The first step: the event's id is stored before anything else.
pub fn begin_payment(strict: bool) -> (start: (PaymentProgress, PaymentStep))
    ensures
        start == (PaymentProgress::StoringEvent { strict }, PaymentStep::InsertEvent),
{
    (PaymentProgress::StoringEvent { strict }, PaymentStep::InsertEvent)
}

/// The next progress and step after the store's `answer`.
pub open spec fn payment_transition(
    progress: PaymentProgress,
    answer: PaymentStoreAnswer,
    payment: VerifiedPayment,
    now: Timestamp,
) -> (PaymentProgress, PaymentStep) {
    match (progress, answer) {
        (PaymentProgress::StoringEvent { strict }, PaymentStoreAnswer::EventInserted) => (
            PaymentProgress::ReadingOrder { strict },
            PaymentStep::LoadOrder,
        ),
        (PaymentProgress::StoringEvent { .. }, PaymentStoreAnswer::EventDuplicate) => (
            PaymentProgress::Done,
            PaymentStep::Abort(PaymentEventOutcome::Duplicate),
        ),
        (PaymentProgress::ReadingOrder { .. }, PaymentStoreAnswer::OrderMissing) => (
            PaymentProgress::Done,
            PaymentStep::Finish(PaymentEventOutcome::MissingOrder),
        ),
        (PaymentProgress::ReadingOrder { strict }, PaymentStoreAnswer::OrderFound(order)) => {
            let verdict = payment_verdict(payment, order, now);
            if verdict == PaymentValidation::Accepted {
                (
                    PaymentProgress::UpdatingOrder { outcome: PaymentEventOutcome::Applied, strict },
                    PaymentStep::MarkPaid,
                )
            } else if verdict == PaymentValidation::Expired {
                (
                    PaymentProgress::UpdatingOrder {
                        outcome: PaymentEventOutcome::Rejected(PaymentValidation::Expired),
                        strict,
                    },
                    PaymentStep::MarkExpired,
                )
            } else {
                (
                    PaymentProgress::Done,
                    PaymentStep::Finish(PaymentEventOutcome::Rejected(verdict)),
                )
            }
        },
        (PaymentProgress::UpdatingOrder { outcome, strict }, PaymentStoreAnswer::Updated(count)) => {
            if strict && count != 1 {
                (
                    PaymentProgress::Done,
                    PaymentStep::Abort(PaymentEventOutcome::Rejected(PaymentValidation::WrongState)),
                )
            } else {
                (PaymentProgress::Done, PaymentStep::Finish(outcome))
            }
        },
        _ => (PaymentProgress::Done, PaymentStep::OutOfOrder),
    }
}

/// Decides the next step of processing `payment` at `now`.
pub fn payment_step(
    progress: PaymentProgress,
    answer: PaymentStoreAnswer,
    payment: &VerifiedPayment,
    now: Timestamp,
) -> (next: (PaymentProgress, PaymentStep))
    ensures
        next == payment_transition(progress, answer, *payment, now),
{
    match (progress, answer) {
        (PaymentProgress::StoringEvent { strict }, PaymentStoreAnswer::EventInserted) => (
            PaymentProgress::ReadingOrder { strict },
            PaymentStep::LoadOrder,
        ),
        (PaymentProgress::StoringEvent { .. }, PaymentStoreAnswer::EventDuplicate) => (
            PaymentProgress::Done,
            PaymentStep::Abort(PaymentEventOutcome::Duplicate),
        ),
        (PaymentProgress::ReadingOrder { .. }, PaymentStoreAnswer::OrderMissing) => (
            PaymentProgress::Done,
            PaymentStep::Finish(PaymentEventOutcome::MissingOrder),
        ),
        (PaymentProgress::ReadingOrder { strict }, PaymentStoreAnswer::OrderFound(order)) => {
            let verdict = validate_payment(payment, &order, now);
            match verdict {
                PaymentValidation::Accepted => (
                    PaymentProgress::UpdatingOrder { outcome: PaymentEventOutcome::Applied, strict },
                    PaymentStep::MarkPaid,
                ),
                PaymentValidation::Expired => (
                    PaymentProgress::UpdatingOrder {
                        outcome: PaymentEventOutcome::Rejected(PaymentValidation::Expired),
                        strict,
                    },
                    PaymentStep::MarkExpired,
                ),
                _ => (
                    PaymentProgress::Done,
                    PaymentStep::Finish(PaymentEventOutcome::Rejected(verdict)),
                ),
            }
        },
        (PaymentProgress::UpdatingOrder { outcome, strict }, PaymentStoreAnswer::Updated(count)) => {
            if strict && count != 1 {
                (
                    PaymentProgress::Done,
                    PaymentStep::Abort(PaymentEventOutcome::Rejected(PaymentValidation::WrongState)),
                )
            } else {
                (PaymentProgress::Done, PaymentStep::Finish(outcome))
            }
        },
        _ => (PaymentProgress::Done, PaymentStep::OutOfOrder),
    }
}

/// The order of the steps: the order is read only once the event's id is
/// stored; a repeated event ends everything before the order is read; the
/// order is marked paid only when the payment was accepted against it as
/// read; and an update that did not find the order still awaiting payment,
/// in a strict store, undoes everything and answers a wrong state.
pub proof fn lemma_event_stored_before_order_is_paid(
    progress: PaymentProgress,
    answer: PaymentStoreAnswer,
    payment: VerifiedPayment,
    now: Timestamp,
)
    ensures
        ({
            let (next, step) = payment_transition(progress, answer, payment, now);
            &&& step == PaymentStep::LoadOrder ==> progress is StoringEvent
                && answer is EventInserted
            &&& answer is EventDuplicate && progress is StoringEvent ==> step
                == PaymentStep::Abort(PaymentEventOutcome::Duplicate) && next is Done
            &&& step == PaymentStep::MarkPaid ==> progress is ReadingOrder && (answer matches PaymentStoreAnswer::OrderFound(order)
                && payment_verdict(payment, order, now) == PaymentValidation::Accepted)
            &&& step == PaymentStep::MarkExpired ==> progress is ReadingOrder && (answer matches PaymentStoreAnswer::OrderFound(order)
                && payment_verdict(payment, order, now) == PaymentValidation::Expired)
            &&& step == PaymentStep::Finish(PaymentEventOutcome::Applied) ==> (progress matches PaymentProgress::UpdatingOrder { outcome, strict }
                && outcome == PaymentEventOutcome::Applied && (answer matches PaymentStoreAnswer::Updated(count)
                && (strict ==> count == 1)))
            &&& (progress matches PaymentProgress::UpdatingOrder { strict, .. } && strict
                && (answer matches PaymentStoreAnswer::Updated(count) && count != 1)) ==> step
                == PaymentStep::Abort(PaymentEventOutcome::Rejected(PaymentValidation::WrongState))
            &&& step is MarkPaid || step is MarkExpired || step is LoadOrder || next is Done
        }),
{
}

} // verus!
