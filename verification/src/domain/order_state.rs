use vstd::prelude::*;

use crate::text::text_eq;

verus! {

/// Lifecycle of a marketplace order, from the reservation hold to its end state.
#[derive(Debug, Clone, Copy, PartialEq, Eq, Structural)]
pub enum OrderState {
    PendingPayment,
    Paid,
    Confirmed,
    Active,
    Fulfilled,
    Returned,
    Completed,
    Cancelled,
    Expired,
}

/// What a participant (or the payment system) asks to do with an order.
#[derive(Debug, Clone, Copy, PartialEq, Eq, Structural)]
pub enum OrderAction {
    MarkPaid,
    Confirm,
    Activate,
    Fulfill,
    Return,
    Complete,
    Cancel,
    Expire,
}

#[derive(Debug, Clone, Copy, PartialEq, Eq, Structural)]
pub enum TransitionError {
    Invalid,
}

/// The transition table of the order state machine: `Some(next)` where the
/// action is allowed in `state`, `None` where it is not.
pub open spec fn next_order_state(state: OrderState, action: OrderAction) -> Option<OrderState> {
    match (state, action) {
        (OrderState::PendingPayment, OrderAction::MarkPaid) => Some(OrderState::Paid),
        (OrderState::PendingPayment, OrderAction::Expire) => Some(OrderState::Expired),
        (OrderState::PendingPayment, OrderAction::Cancel) => Some(OrderState::Cancelled),
        (OrderState::Paid, OrderAction::Cancel) => Some(OrderState::Cancelled),
        (OrderState::Confirmed, OrderAction::Cancel) => Some(OrderState::Cancelled),
        (OrderState::Paid, OrderAction::Confirm) => Some(OrderState::Confirmed),
        (OrderState::Confirmed, OrderAction::Activate) => Some(OrderState::Active),
        (OrderState::Confirmed, OrderAction::Fulfill) => Some(OrderState::Fulfilled),
        (OrderState::Active, OrderAction::Return) => Some(OrderState::Returned),
        (OrderState::Returned, OrderAction::Complete) => Some(OrderState::Completed),
        (OrderState::Fulfilled, OrderAction::Complete) => Some(OrderState::Completed),
        _ => None,
    }
}

/// The stored name of an order state.
pub open spec fn order_state_name(state: OrderState) -> Seq<char> {
    match state {
        OrderState::PendingPayment => "pending_payment"@,
        OrderState::Paid => "paid"@,
        OrderState::Confirmed => "confirmed"@,
        OrderState::Active => "active"@,
        OrderState::Fulfilled => "fulfilled"@,
        OrderState::Returned => "returned"@,
        OrderState::Completed => "completed"@,
        OrderState::Cancelled => "cancelled"@,
        OrderState::Expired => "expired"@,
    }
}

impl OrderState {
    pub fn transition(self, action: OrderAction) -> (result: Result<OrderState, TransitionError>)
        ensures
            match next_order_state(self, action) {
                Some(next) => result == Ok::<OrderState, TransitionError>(next),
                None => result == Err::<OrderState, TransitionError>(TransitionError::Invalid),
            },
    {
        match (self, action) {
            (OrderState::PendingPayment, OrderAction::MarkPaid) => Ok(OrderState::Paid),
            (OrderState::PendingPayment, OrderAction::Expire) => Ok(OrderState::Expired),
            (OrderState::PendingPayment, OrderAction::Cancel)
            | (OrderState::Paid, OrderAction::Cancel)
            | (OrderState::Confirmed, OrderAction::Cancel) => Ok(OrderState::Cancelled),
            (OrderState::Paid, OrderAction::Confirm) => Ok(OrderState::Confirmed),
            (OrderState::Confirmed, OrderAction::Activate) => Ok(OrderState::Active),
            (OrderState::Confirmed, OrderAction::Fulfill) => Ok(OrderState::Fulfilled),
            (OrderState::Active, OrderAction::Return) => Ok(OrderState::Returned),
            (OrderState::Returned, OrderAction::Complete)
            | (OrderState::Fulfilled, OrderAction::Complete) => Ok(OrderState::Completed),
            _ => Err(TransitionError::Invalid),
        }
    }
}

impl OrderState {
    pub fn as_str(self) -> (name: &'static str)
        ensures
            name@ == order_state_name(self),
    {
        match self {
            OrderState::PendingPayment => "pending_payment",
            OrderState::Paid => "paid",
            OrderState::Confirmed => "confirmed",
            OrderState::Active => "active",
            OrderState::Fulfilled => "fulfilled",
            OrderState::Returned => "returned",
            OrderState::Completed => "completed",
            OrderState::Cancelled => "cancelled",
            OrderState::Expired => "expired",
        }
    }

    /// The order state with the stored name `value`; any other name is an
    /// invalid state.
    pub fn try_from_name(value: &str) -> (state: Result<OrderState, TransitionError>)
        ensures
            match state {
                Ok(s) => order_state_name(s) == value@,
                Err(e) => e == TransitionError::Invalid && forall|s: OrderState|
                    order_state_name(s) != value@,
            },
    {
        let candidates: [OrderState; 9] = [
            OrderState::PendingPayment,
            OrderState::Paid,
            OrderState::Confirmed,
            OrderState::Active,
            OrderState::Fulfilled,
            OrderState::Returned,
            OrderState::Completed,
            OrderState::Cancelled,
            OrderState::Expired,
        ];
        let mut i: usize = 0;
        while i < 9
            invariant
                0 <= i <= 9,
                forall|j: int| 0 <= j < i ==> order_state_name(#[trigger] candidates[j]) != value@,
                candidates@ == seq![
                    OrderState::PendingPayment,
                    OrderState::Paid,
                    OrderState::Confirmed,
                    OrderState::Active,
                    OrderState::Fulfilled,
                    OrderState::Returned,
                    OrderState::Completed,
                    OrderState::Cancelled,
                    OrderState::Expired,
                ],
            decreases 9 - i,
        {
            let candidate = candidates[i];
            if text_eq(candidate.as_str(), value) {
                return Ok(candidate);
            }
            i = i + 1;
        }
        proof {
            assert forall|s: OrderState| order_state_name(s) != value@ by {
                let k: int = match s {
                    OrderState::PendingPayment => 0,
                    OrderState::Paid => 1,
                    OrderState::Confirmed => 2,
                    OrderState::Active => 3,
                    OrderState::Fulfilled => 4,
                    OrderState::Returned => 5,
                    OrderState::Completed => 6,
                    OrderState::Cancelled => 7,
                    OrderState::Expired => 8,
                };
                assert(candidates[k] == s);
            }
        }
        Err(TransitionError::Invalid)
    }
}

/// An order that is completed, cancelled or expired stays so: no action
/// leads out of these states.
pub proof fn lemma_end_states_are_final(state: OrderState, action: OrderAction)
    requires
        state == OrderState::Completed || state == OrderState::Cancelled || state
            == OrderState::Expired,
    ensures
        next_order_state(state, action) is None,
{
}

/// An order becomes paid only from the pending-payment hold, by the payment
/// itself; no participant action marks it paid.
pub proof fn lemma_paid_only_from_pending_payment(state: OrderState, action: OrderAction)
    requires
        next_order_state(state, action) == Some(OrderState::Paid),
    ensures
        state == OrderState::PendingPayment,
        action == OrderAction::MarkPaid,
{
}

/// Distinct states have distinct stored names, so a state read back by its
/// name is the state that was stored.
pub proof fn lemma_state_names_round_trip(a: OrderState, b: OrderState)
    requires
        order_state_name(a) == order_state_name(b),
    ensures
        a == b,
{
    assert(order_state_name(OrderState::PendingPayment).len() == 15 && order_state_name(OrderState::PendingPayment)[0] == 'p'
        && order_state_name(OrderState::PendingPayment)[1] == 'e' && order_state_name(OrderState::PendingPayment)[2] == 'n') by {
        reveal_strlit("pending_payment");
    }
    assert(order_state_name(OrderState::Paid).len() == 4 && order_state_name(OrderState::Paid)[0] == 'p'
        && order_state_name(OrderState::Paid)[1] == 'a' && order_state_name(OrderState::Paid)[2] == 'i') by {
        reveal_strlit("paid");
    }
    assert(order_state_name(OrderState::Confirmed).len() == 9 && order_state_name(OrderState::Confirmed)[0] == 'c'
        && order_state_name(OrderState::Confirmed)[1] == 'o' && order_state_name(OrderState::Confirmed)[2] == 'n') by {
        reveal_strlit("confirmed");
    }
    assert(order_state_name(OrderState::Active).len() == 6 && order_state_name(OrderState::Active)[0] == 'a'
        && order_state_name(OrderState::Active)[1] == 'c' && order_state_name(OrderState::Active)[2] == 't') by {
        reveal_strlit("active");
    }
    assert(order_state_name(OrderState::Fulfilled).len() == 9 && order_state_name(OrderState::Fulfilled)[0] == 'f'
        && order_state_name(OrderState::Fulfilled)[1] == 'u' && order_state_name(OrderState::Fulfilled)[2] == 'l') by {
        reveal_strlit("fulfilled");
    }
    assert(order_state_name(OrderState::Returned).len() == 8 && order_state_name(OrderState::Returned)[0] == 'r'
        && order_state_name(OrderState::Returned)[1] == 'e' && order_state_name(OrderState::Returned)[2] == 't') by {
        reveal_strlit("returned");
    }
    assert(order_state_name(OrderState::Completed).len() == 9 && order_state_name(OrderState::Completed)[0] == 'c'
        && order_state_name(OrderState::Completed)[1] == 'o' && order_state_name(OrderState::Completed)[2] == 'm') by {
        reveal_strlit("completed");
    }
    assert(order_state_name(OrderState::Cancelled).len() == 9 && order_state_name(OrderState::Cancelled)[0] == 'c'
        && order_state_name(OrderState::Cancelled)[1] == 'a' && order_state_name(OrderState::Cancelled)[2] == 'n') by {
        reveal_strlit("cancelled");
    }
    assert(order_state_name(OrderState::Expired).len() == 7 && order_state_name(OrderState::Expired)[0] == 'e'
        && order_state_name(OrderState::Expired)[1] == 'x' && order_state_name(OrderState::Expired)[2] == 'p') by {
        reveal_strlit("expired");
    }
    let x = order_state_name(a);
    let y = order_state_name(b);
    if a != b {
        assert(x.len() != y.len() || x[0] != y[0] || x[1] != y[1] || x[2] != y[2]);
    }
}

/// Every order that is not yet completed, cancelled or expired can still
/// move on: some action takes it to another state. A fulfilled or returned
/// order moves on by being completed, and completing it always succeeds.
pub proof fn lemma_open_orders_can_move_on(state: OrderState)
    ensures
        !(state == OrderState::Completed || state == OrderState::Cancelled || state
            == OrderState::Expired) ==> exists|action: OrderAction|
            #[trigger] next_order_state(state, action) is Some,
        state == OrderState::Fulfilled || state == OrderState::Returned ==> next_order_state(
            state,
            OrderAction::Complete,
        ) == Some(OrderState::Completed),
{
    match state {
        OrderState::PendingPayment => {
            assert(next_order_state(state, OrderAction::MarkPaid) is Some);
        },
        OrderState::Paid => {
            assert(next_order_state(state, OrderAction::Confirm) is Some);
        },
        OrderState::Confirmed => {
            assert(next_order_state(state, OrderAction::Activate) is Some);
        },
        OrderState::Active => {
            assert(next_order_state(state, OrderAction::Return) is Some);
        },
        OrderState::Fulfilled | OrderState::Returned => {
            assert(next_order_state(state, OrderAction::Complete) is Some);
        },
        _ => {},
    }
}

/// An order can be cancelled exactly until it is handed over: while it awaits
/// payment, once paid and once confirmed; never after it is active or
/// fulfilled. Cancelling always ends it as cancelled.
pub proof fn lemma_cancel_until_handover(state: OrderState)
    ensures
        (state == OrderState::PendingPayment || state == OrderState::Paid || state
            == OrderState::Confirmed) ==> next_order_state(state, OrderAction::Cancel) == Some(
            OrderState::Cancelled,
        ),
        !(state == OrderState::PendingPayment || state == OrderState::Paid || state
            == OrderState::Confirmed) ==> next_order_state(state, OrderAction::Cancel) is None,
{
}

} // verus!
