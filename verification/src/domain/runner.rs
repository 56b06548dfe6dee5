//! BSR Runner: quotes for local errands and the role-aware task state machine.
use vstd::prelude::*;

use crate::text::{decimal, push_decimal, push_text, text};

verus! {

#[derive(Debug, Clone, Copy, PartialEq, Eq, Structural)]
pub enum TaskCategory {
    BsrRentalDelivery,
    BsrSecondHandDelivery,
    PackagePickup,
    GroceryPickup,
    DocumentDelivery,
    SmallItemDelivery,
    OtherErrand,
    Prohibited,
    MedicalEmergency,
}

pub open spec fn category_surcharge(category: TaskCategory) -> int {
    match category {
        TaskCategory::BsrRentalDelivery | TaskCategory::BsrSecondHandDelivery => 150,
        TaskCategory::PackagePickup | TaskCategory::DocumentDelivery
        | TaskCategory::SmallItemDelivery => 100,
        TaskCategory::GroceryPickup => 250,
        TaskCategory::OtherErrand => 300,
        TaskCategory::Prohibited | TaskCategory::MedicalEmergency => 0,
    }
}

pub open spec fn category_label(category: TaskCategory) -> Seq<char> {
    match category {
        TaskCategory::BsrRentalDelivery => "BSR rental delivery"@,
        TaskCategory::BsrSecondHandDelivery => "BSR second-hand delivery"@,
        TaskCategory::PackagePickup => "package pickup"@,
        TaskCategory::GroceryPickup => "grocery pickup"@,
        TaskCategory::DocumentDelivery => "document delivery"@,
        TaskCategory::SmallItemDelivery => "small-item delivery"@,
        TaskCategory::OtherErrand => "local errand"@,
        TaskCategory::Prohibited => "prohibited task"@,
        TaskCategory::MedicalEmergency => "medical emergency"@,
    }
}

impl TaskCategory {
    fn surcharge_cents(self) -> (cents: i64)
        ensures
            cents == category_surcharge(self),
    {
        match self {
            TaskCategory::BsrRentalDelivery | TaskCategory::BsrSecondHandDelivery => 150,
            TaskCategory::PackagePickup | TaskCategory::DocumentDelivery
            | TaskCategory::SmallItemDelivery => 100,
            TaskCategory::GroceryPickup => 250,
            TaskCategory::OtherErrand => 300,
            TaskCategory::Prohibited | TaskCategory::MedicalEmergency => 0,
        }
    }

    fn label(self) -> (label: &'static str)
        ensures
            label@ == category_label(self),
    {
        match self {
            TaskCategory::BsrRentalDelivery => "BSR rental delivery",
            TaskCategory::BsrSecondHandDelivery => "BSR second-hand delivery",
            TaskCategory::PackagePickup => "package pickup",
            TaskCategory::GroceryPickup => "grocery pickup",
            TaskCategory::DocumentDelivery => "document delivery",
            TaskCategory::SmallItemDelivery => "small-item delivery",
            TaskCategory::OtherErrand => "local errand",
            TaskCategory::Prohibited => "prohibited task",
            TaskCategory::MedicalEmergency => "medical emergency",
        }
    }
}

#[derive(Debug, Clone, Copy, PartialEq, Eq, Structural)]
pub enum WeightBand {
    Light,
    Medium,
    Heavy,
}

pub open spec fn weight_surcharge(weight: WeightBand) -> int {
    match weight {
        WeightBand::Light => 0,
        WeightBand::Medium => 250,
        WeightBand::Heavy => 600,
    }
}

pub open spec fn weight_label(weight: WeightBand) -> Seq<char> {
    match weight {
        WeightBand::Light => "light"@,
        WeightBand::Medium => "medium"@,
        WeightBand::Heavy => "heavy"@,
    }
}

impl WeightBand {
    fn surcharge_cents(self) -> (cents: i64)
        ensures
            cents == weight_surcharge(self),
    {
        match self {
            WeightBand::Light => 0,
            WeightBand::Medium => 250,
            WeightBand::Heavy => 600,
        }
    }

    fn label(self) -> (label: &'static str)
        ensures
            label@ == weight_label(self),
    {
        match self {
            WeightBand::Light => "light",
            WeightBand::Medium => "medium",
            WeightBand::Heavy => "heavy",
        }
    }
}

#[derive(Debug, Clone, Copy, PartialEq, Eq, Structural)]
pub enum Urgency {
    Flexible,
    SameDay,
    Immediate,
}

pub open spec fn urgency_surcharge(urgency: Urgency) -> int {
    match urgency {
        Urgency::Flexible => 0,
        Urgency::SameDay => 200,
        Urgency::Immediate => 800,
    }
}

pub open spec fn urgency_label(urgency: Urgency) -> Seq<char> {
    match urgency {
        Urgency::Flexible => "flexible"@,
        Urgency::SameDay => "same-day"@,
        Urgency::Immediate => "immediate"@,
    }
}

impl Urgency {
    fn surcharge_cents(self) -> (cents: i64)
        ensures
            cents == urgency_surcharge(self),
    {
        match self {
            Urgency::Flexible => 0,
            Urgency::SameDay => 200,
            Urgency::Immediate => 800,
        }
    }

    fn label(self) -> (label: &'static str)
        ensures
            label@ == urgency_label(self),
    {
        match self {
            Urgency::Flexible => "flexible",
            Urgency::SameDay => "same-day",
            Urgency::Immediate => "immediate",
        }
    }
}

/// What a customer states about an errand to get a quote.
#[derive(Debug, Clone, Copy, PartialEq, Eq, Structural)]
pub struct RunnerQuoteInput {
    pub category: TaskCategory,
    pub distance_tenths_mile: u32,
    pub estimated_minutes: u32,
    pub weight: WeightBand,
    pub urgency: Urgency,
    pub waiting_minutes: u32,
}

#[derive(Debug, Clone, Copy, PartialEq, Eq, Structural)]
pub enum RunnerError {
    ProhibitedTask,
    EmergencyTask,
    InvalidQuoteInput,
    InvalidTransition,
}

/// Why an errand cannot be quoted, if it cannot: prohibited and emergency
/// tasks first, then distance (0.1 to 100 miles), time (5 to 480 minutes) and
/// waiting time (at most 120 minutes).
pub open spec fn quote_rejection(input: RunnerQuoteInput) -> Option<RunnerError> {
    if input.category == TaskCategory::Prohibited {
        Some(RunnerError::ProhibitedTask)
    } else if input.category == TaskCategory::MedicalEmergency {
        Some(RunnerError::EmergencyTask)
    } else if !(1 <= input.distance_tenths_mile <= 1_000) || !(5 <= input.estimated_minutes <= 480)
        || input.waiting_minutes > 120 {
        Some(RunnerError::InvalidQuoteInput)
    } else {
        None
    }
}

impl RunnerQuoteInput {
    fn validate(self) -> (r: Result<(), RunnerError>)
        ensures
            match quote_rejection(self) {
                Some(e) => r == Err::<(), RunnerError>(e),
                None => r == Ok::<(), RunnerError>(()),
            },
    {
        match self.category {
            TaskCategory::Prohibited => return Err(RunnerError::ProhibitedTask),
            TaskCategory::MedicalEmergency => return Err(RunnerError::EmergencyTask),
            _ => {},
        }
        if !(1 <= self.distance_tenths_mile && self.distance_tenths_mile <= 1_000) || !(5
            <= self.estimated_minutes && self.estimated_minutes <= 480) || self.waiting_minutes
            > 120 {
            return Err(RunnerError::InvalidQuoteInput);
        }
        Ok(())
    }
}

/// A runner quote: the runner's payout, the 12% service fee and their sum, with
/// an explanation for the customer.
#[derive(Debug, Clone, PartialEq, Eq)]
pub struct RunnerQuote {
    pub runner_payout_cents: i64,
    pub service_fee_cents: i64,
    pub total_cents: i64,
    pub currency: String,
    pub explanation: Vec<String>,
}

/// The runner's payout: 650 base, 19 per tenth of a mile, 35 per estimated
/// minute, 30 per waiting minute and the surcharges, never under 1 200.
pub open spec fn runner_payout(input: RunnerQuoteInput) -> int {
    let raw = runner_raw_payout(input);
    if raw < 1_200 {
        1_200
    } else {
        raw
    }
}

/// The payout before the 1 200-cent floor.
pub open spec fn runner_raw_payout(input: RunnerQuoteInput) -> int {
    650 + input.distance_tenths_mile * 19 + input.estimated_minutes * 35 + input.waiting_minutes
        * 30 + category_surcharge(input.category) + weight_surcharge(input.weight)
        + urgency_surcharge(input.urgency)
}

/// The service fee: 12% of the payout, rounded up to the cent.
pub open spec fn runner_service_fee(payout: int) -> int {
    (payout * 12 + 99) / 100
}

/// The lines that explain a runner quote, in order.
pub open spec fn runner_explanation(input: RunnerQuoteInput) -> Seq<Seq<char>> {
    seq![
        "Base pay for "@ + category_label(input.category),
        "distance allowance for "@ + decimal((input.distance_tenths_mile / 10) as nat) + "."@
            + decimal((input.distance_tenths_mile % 10) as nat) + " miles"@,
        "Time allowance for "@ + decimal(input.estimated_minutes as nat) + " minutes"@,
        weight_label(input.weight) + " item \u{b7} "@ + urgency_label(input.urgency) + " timing"@,
        "BSR Runner service fee: 12%"@,
    ]
}

/// Quotes an errand, or says why it cannot be offered.
pub fn quote_runner_task(input: RunnerQuoteInput) -> (result: Result<RunnerQuote, RunnerError>)
    ensures
        match quote_rejection(input) {
            Some(e) => result == Err::<RunnerQuote, RunnerError>(e),
            None => result matches Ok(q) && {
                &&& q.runner_payout_cents == runner_payout(input)
                &&& q.service_fee_cents == runner_service_fee(runner_payout(input))
                &&& q.total_cents == q.runner_payout_cents + q.service_fee_cents
                &&& q.currency@ == "usd"@
                &&& q.explanation@.map_values(|line: String| line@) == runner_explanation(input)
            },
        },
{
    input.validate()?;
    let base_cents: i64 = 650;
    let distance_cents: i64 = input.distance_tenths_mile as i64 * 19;
    let time_cents: i64 = input.estimated_minutes as i64 * 35;
    let waiting_cents: i64 = input.waiting_minutes as i64 * 30;
    let category_cents = input.category.surcharge_cents();
    let weight_cents = input.weight.surcharge_cents();
    let urgency_cents = input.urgency.surcharge_cents();
    let raw = base_cents + distance_cents + time_cents + waiting_cents + category_cents
        + weight_cents + urgency_cents;
    let runner_payout_cents = if raw < 1_200 {
        1_200
    } else {
        raw
    };
    let service_fee_cents = (runner_payout_cents * 12 + 99) / 100;
    let explanation = runner_explanation_lines(input);
    Ok(
        RunnerQuote {
            runner_payout_cents,
            service_fee_cents,
            total_cents: runner_payout_cents + service_fee_cents,
            currency: text("usd"),
            explanation,
        },
    )
}

fn runner_explanation_lines(input: RunnerQuoteInput) -> (lines: Vec<String>)
    ensures
        lines@.map_values(|line: String| line@) == runner_explanation(input),
{
    let mut lines: Vec<String> = Vec::new();
    let mut base = text("Base pay for ");
    push_text(&mut base, input.category.label());
    lines.push(base);
    let mut distance = text("distance allowance for ");
    push_decimal(&mut distance, (input.distance_tenths_mile / 10) as u64);
    push_text(&mut distance, ".");
    push_decimal(&mut distance, (input.distance_tenths_mile % 10) as u64);
    push_text(&mut distance, " miles");
    lines.push(distance);
    let mut time = text("Time allowance for ");
    push_decimal(&mut time, input.estimated_minutes as u64);
    push_text(&mut time, " minutes");
    lines.push(time);
    let mut handling = text(input.weight.label());
    push_text(&mut handling, " item \u{b7} ");
    push_text(&mut handling, input.urgency.label());
    push_text(&mut handling, " timing");
    lines.push(handling);
    lines.push(text("BSR Runner service fee: 12%"));
    assert(lines@.map_values(|line: String| line@) =~= runner_explanation(input));
    lines
}

/// Where a runner task stands, from draft to an end state.
#[derive(Debug, Clone, Copy, PartialEq, Eq, Structural)]
pub enum RunnerTaskState {
    Draft,
    Quoted,
    Funded,
    Available,
    Accepted,
    PickedUp,
    Delivering,
    Completed,
    Cancelled,
    Expired,
    Disputed,
}

#[derive(Debug, Clone, Copy, PartialEq, Eq, Structural)]
pub enum RunnerAction {
    Quote,
    Fund,
    Publish,
    Accept,
    ConfirmPickup,
    StartDelivery,
    Complete,
    Cancel,
    Dispute,
    Expire,
}

#[derive(Debug, Clone, Copy, PartialEq, Eq, Structural)]
pub enum RunnerRole {
    Customer,
    Runner,
    Admin,
}

/// The runner task transition table: which role may take which action in
/// which state, and the state it leads to.
pub open spec fn next_task_state(
    state: RunnerTaskState,
    role: RunnerRole,
    action: RunnerAction,
) -> Option<RunnerTaskState> {
    match (state, role, action) {
        (RunnerTaskState::Draft, RunnerRole::Customer, RunnerAction::Quote) => Some(
            RunnerTaskState::Quoted,
        ),
        (RunnerTaskState::Quoted, RunnerRole::Customer, RunnerAction::Fund) => Some(
            RunnerTaskState::Funded,
        ),
        (RunnerTaskState::Funded, RunnerRole::Customer, RunnerAction::Publish) => Some(
            RunnerTaskState::Available,
        ),
        (RunnerTaskState::Available, RunnerRole::Runner, RunnerAction::Accept) => Some(
            RunnerTaskState::Accepted,
        ),
        (RunnerTaskState::Accepted, RunnerRole::Runner, RunnerAction::ConfirmPickup) => Some(
            RunnerTaskState::PickedUp,
        ),
        (RunnerTaskState::PickedUp, RunnerRole::Runner, RunnerAction::StartDelivery) => Some(
            RunnerTaskState::Delivering,
        ),
        (RunnerTaskState::Delivering, RunnerRole::Customer, RunnerAction::Complete) => Some(
            RunnerTaskState::Completed,
        ),
        (RunnerTaskState::Draft, RunnerRole::Customer, RunnerAction::Cancel)
        | (RunnerTaskState::Quoted, RunnerRole::Customer, RunnerAction::Cancel)
        | (RunnerTaskState::Funded, RunnerRole::Customer, RunnerAction::Cancel)
        | (RunnerTaskState::Available, RunnerRole::Customer, RunnerAction::Cancel) => Some(
            RunnerTaskState::Cancelled,
        ),
        (RunnerTaskState::Accepted, _, RunnerAction::Dispute)
        | (RunnerTaskState::PickedUp, _, RunnerAction::Dispute)
        | (RunnerTaskState::Delivering, _, RunnerAction::Dispute) => Some(
            RunnerTaskState::Disputed,
        ),
        (RunnerTaskState::Available, RunnerRole::Admin, RunnerAction::Expire) => Some(
            RunnerTaskState::Expired,
        ),
        _ => None,
    }
}

impl RunnerTaskState {
    pub fn transition_for(self, role: RunnerRole, action: RunnerAction) -> (result: Result<
        RunnerTaskState,
        RunnerError,
    >)
        ensures
            match next_task_state(self, role, action) {
                Some(next) => result == Ok::<RunnerTaskState, RunnerError>(next),
                None => result == Err::<RunnerTaskState, RunnerError>(
                    RunnerError::InvalidTransition,
                ),
            },
    {
        match (self, role, action) {
            (RunnerTaskState::Draft, RunnerRole::Customer, RunnerAction::Quote) => Ok(
                RunnerTaskState::Quoted,
            ),
            (RunnerTaskState::Quoted, RunnerRole::Customer, RunnerAction::Fund) => Ok(
                RunnerTaskState::Funded,
            ),
            (RunnerTaskState::Funded, RunnerRole::Customer, RunnerAction::Publish) => Ok(
                RunnerTaskState::Available,
            ),
            (RunnerTaskState::Available, RunnerRole::Runner, RunnerAction::Accept) => Ok(
                RunnerTaskState::Accepted,
            ),
            (RunnerTaskState::Accepted, RunnerRole::Runner, RunnerAction::ConfirmPickup) => Ok(
                RunnerTaskState::PickedUp,
            ),
            (RunnerTaskState::PickedUp, RunnerRole::Runner, RunnerAction::StartDelivery) => Ok(
                RunnerTaskState::Delivering,
            ),
            (RunnerTaskState::Delivering, RunnerRole::Customer, RunnerAction::Complete) => Ok(
                RunnerTaskState::Completed,
            ),
            (RunnerTaskState::Draft, RunnerRole::Customer, RunnerAction::Cancel)
            | (RunnerTaskState::Quoted, RunnerRole::Customer, RunnerAction::Cancel)
            | (RunnerTaskState::Funded, RunnerRole::Customer, RunnerAction::Cancel)
            | (RunnerTaskState::Available, RunnerRole::Customer, RunnerAction::Cancel) => Ok(
                RunnerTaskState::Cancelled,
            ),
            (RunnerTaskState::Accepted, _, RunnerAction::Dispute)
            | (RunnerTaskState::PickedUp, _, RunnerAction::Dispute)
            | (RunnerTaskState::Delivering, _, RunnerAction::Dispute) => Ok(
                RunnerTaskState::Disputed,
            ),
            (RunnerTaskState::Available, RunnerRole::Admin, RunnerAction::Expire) => Ok(
                RunnerTaskState::Expired,
            ),
            _ => Err(RunnerError::InvalidTransition),
        }
    }
}

/// Heavier or more urgent work never costs less: with everything else equal, a
/// heavier weight band or a more urgent timing gives at least the same payout,
/// fee and total, and a strictly higher total once the payout is above its floor.
pub proof fn lemma_heavier_and_urgent_cost_more(a: RunnerQuoteInput, b: RunnerQuoteInput)
    requires
        a.category == b.category,
        a.distance_tenths_mile == b.distance_tenths_mile,
        a.estimated_minutes == b.estimated_minutes,
        a.waiting_minutes == b.waiting_minutes,
        weight_surcharge(a.weight) <= weight_surcharge(b.weight),
        urgency_surcharge(a.urgency) <= urgency_surcharge(b.urgency),
    ensures
        runner_payout(a) <= runner_payout(b),
        runner_service_fee(runner_payout(a)) <= runner_service_fee(runner_payout(b)),
        runner_payout(a) + runner_service_fee(runner_payout(a)) <= runner_payout(b)
            + runner_service_fee(runner_payout(b)),
        runner_raw_payout(a) >= 1_200 && (weight_surcharge(a.weight) < weight_surcharge(b.weight)
            || urgency_surcharge(a.urgency) < urgency_surcharge(b.urgency)) ==> runner_payout(a)
            + runner_service_fee(runner_payout(a)) < runner_payout(b) + runner_service_fee(
            runner_payout(b),
        ),
{
    let pa = runner_payout(a);
    let pb = runner_payout(b);
    assert(runner_service_fee(pa) <= runner_service_fee(pb)) by (nonlinear_arith)
        requires
            pa <= pb,
    ;
}

/// A runner quote pays the runner at least 12 dollars, and the customer's
/// total is the payout plus a fee of 12% rounded up.
pub proof fn lemma_quote_floor_and_fee(input: RunnerQuoteInput)
    ensures
        runner_payout(input) >= 1_200,
        runner_service_fee(runner_payout(input)) * 100 >= runner_payout(input) * 12,
        runner_service_fee(runner_payout(input)) * 100 < runner_payout(input) * 12 + 100,
{
    let p = runner_payout(input);
    assert(runner_service_fee(p) * 100 >= p * 12 && runner_service_fee(p) * 100 < p * 12 + 100)
        by (nonlinear_arith)
        requires
            runner_service_fee(p) == (p * 12 + 99) / 100,
    ;
}

/// Only a runner accepts a task, and only one that is published: a draft,
/// quoted or merely funded task cannot be accepted.
pub proof fn lemma_only_available_tasks_are_accepted(
    state: RunnerTaskState,
    role: RunnerRole,
    next: RunnerTaskState,
)
    requires
        next_task_state(state, role, RunnerAction::Accept) == Some(next),
    ensures
        state == RunnerTaskState::Available,
        role == RunnerRole::Runner,
        next == RunnerTaskState::Accepted,
{
}

/// Only the customer completes a task, and only one that is being delivered.
pub proof fn lemma_only_customer_completes_delivery(
    state: RunnerTaskState,
    role: RunnerRole,
    next: RunnerTaskState,
)
    requires
        next_task_state(state, role, RunnerAction::Complete) == Some(next),
    ensures
        state == RunnerTaskState::Delivering,
        role == RunnerRole::Customer,
        next == RunnerTaskState::Completed,
{
}

/// Completed, cancelled, expired and disputed tasks are final: no role and no
/// action moves them.
pub proof fn lemma_task_end_states_are_final(
    state: RunnerTaskState,
    role: RunnerRole,
    action: RunnerAction,
)
    requires
        state == RunnerTaskState::Completed || state == RunnerTaskState::Cancelled || state
            == RunnerTaskState::Expired || state == RunnerTaskState::Disputed,
    ensures
        next_task_state(state, role, action) is None,
{
}

/// A customer can cancel a task exactly until a runner accepts it: in the
/// draft, quoted, funded and available states the customer's cancel ends the
/// task as cancelled, and in no other state is it allowed.
pub proof fn lemma_customer_cancels_until_accepted(state: RunnerTaskState)
    ensures
        (state == RunnerTaskState::Draft || state == RunnerTaskState::Quoted || state
            == RunnerTaskState::Funded || state == RunnerTaskState::Available) ==> next_task_state(
            state,
            RunnerRole::Customer,
            RunnerAction::Cancel,
        ) == Some(RunnerTaskState::Cancelled),
        !(state == RunnerTaskState::Draft || state == RunnerTaskState::Quoted || state
            == RunnerTaskState::Funded || state == RunnerTaskState::Available) ==> next_task_state(
            state,
            RunnerRole::Customer,
            RunnerAction::Cancel,
        ) is None,
{
}

/// Above the 1 200-cent floor, the payout grows by exactly 19 cents per tenth
/// of a mile, 35 cents per estimated minute and 30 cents per waiting minute:
/// of two errands alike but for these, the longer one pays the difference
/// more. No errand pays less than the floor.
pub proof fn lemma_payout_per_distance_and_time(a: RunnerQuoteInput, b: RunnerQuoteInput)
    requires
        a.category == b.category,
        a.weight == b.weight,
        a.urgency == b.urgency,
        a.distance_tenths_mile >= b.distance_tenths_mile,
        a.estimated_minutes >= b.estimated_minutes,
        a.waiting_minutes >= b.waiting_minutes,
        runner_payout(b) > 1_200,
    ensures
        runner_payout(a) == runner_payout(b) + 19 * (a.distance_tenths_mile - b.distance_tenths_mile)
            + 35 * (a.estimated_minutes - b.estimated_minutes) + 30 * (a.waiting_minutes
            - b.waiting_minutes),
        runner_payout(a) >= 1_200,
{
}

/// Every task that is not completed, cancelled, expired or disputed can still
/// move on: some role has an action that takes it to another state.
pub proof fn lemma_open_tasks_can_move_on(state: RunnerTaskState)
    ensures
        !(state == RunnerTaskState::Completed || state == RunnerTaskState::Cancelled || state
            == RunnerTaskState::Expired || state == RunnerTaskState::Disputed) ==> exists|
            role: RunnerRole,
            action: RunnerAction,
        | #[trigger] next_task_state(state, role, action) is Some,
{
    match state {
        RunnerTaskState::Draft => {
            assert(next_task_state(state, RunnerRole::Customer, RunnerAction::Quote) is Some);
        },
        RunnerTaskState::Quoted => {
            assert(next_task_state(state, RunnerRole::Customer, RunnerAction::Fund) is Some);
        },
        RunnerTaskState::Funded => {
            assert(next_task_state(state, RunnerRole::Customer, RunnerAction::Publish) is Some);
        },
        RunnerTaskState::Available => {
            assert(next_task_state(state, RunnerRole::Runner, RunnerAction::Accept) is Some);
        },
        RunnerTaskState::Accepted => {
            assert(next_task_state(state, RunnerRole::Runner, RunnerAction::ConfirmPickup) is Some);
        },
        RunnerTaskState::PickedUp => {
            assert(next_task_state(state, RunnerRole::Runner, RunnerAction::StartDelivery) is Some);
        },
        RunnerTaskState::Delivering => {
            assert(next_task_state(state, RunnerRole::Customer, RunnerAction::Complete) is Some);
        },
        _ => {},
    }
}

/// The service fee is 12% of the payout rounded up to the cent: the smallest
/// whole number of cents that is at least 12% of it.
pub proof fn lemma_service_fee_is_twelve_percent_rounded_up(payout: int)
    requires
        payout >= 0,
    ensures
        100 * runner_service_fee(payout) >= 12 * payout,
        100 * (runner_service_fee(payout) - 1) < 12 * payout,
{
}

} // verus!
