//! The BSR Runner demo: an in-memory marketplace of errands with runner
//! applications, role-checked task actions, hidden addresses and payouts that
//! are released once.
use vstd::prelude::*;

use crate::domain::runner::{
    next_task_state, quote_rejection, quote_runner_task, runner_payout, runner_service_fee,
    RunnerAction, RunnerError, RunnerQuoteInput, RunnerRole, RunnerTaskState, TaskCategory,
    Urgency, WeightBand,
};
use crate::text::{decimal, push_decimal, push_text, text, text_eq, trim, trimmed};

verus! {

/// An application to run errands.
#[derive(Debug, Clone)]
pub struct RunnerApplication {
    pub id: String,
    pub name: String,
    pub age_confirmed: bool,
    pub transport: String,
    pub service_radius_miles: u32,
    pub status: String,
}

impl RunnerApplication {
    pub fn duplicate(&self) -> (copy: RunnerApplication)
        ensures
            copy == *self,
    {
        RunnerApplication {
            id: self.id.clone(),
            name: self.name.clone(),
            age_confirmed: self.age_confirmed,
            transport: self.transport.clone(),
            service_radius_miles: self.service_radius_miles,
            status: self.status.clone(),
        }
    }
}

/// An errand with everything the store knows of it, exact addresses and the
/// completion code included.
#[derive(Debug, Clone)]
pub struct RunnerTask {
    pub id: String,
    pub customer_id: String,
    pub title: String,
    pub description: String,
    pub category: TaskCategory,
    pub pickup_area: String,
    pub dropoff_area: String,
    pub pickup_address: String,
    pub dropoff_address: String,
    pub distance_tenths_mile: u32,
    pub estimated_minutes: u32,
    pub weight: WeightBand,
    pub urgency: Urgency,
    pub state: RunnerTaskState,
    pub runner_payout_cents: i64,
    pub service_fee_cents: i64,
    pub total_cents: i64,
    pub assigned_runner_id: Option<String>,
    pub completion_code: String,
    pub payout_released: bool,
}

/// What anyone may see of a task: no exact address and no completion code.
#[derive(Debug, Clone)]
pub struct PublicTask {
    pub id: String,
    pub title: String,
    pub description: String,
    pub category: TaskCategory,
    pub pickup_area: String,
    pub dropoff_area: String,
    pub distance_tenths_mile: u32,
    pub estimated_minutes: u32,
    pub weight: WeightBand,
    pub urgency: Urgency,
    pub state: RunnerTaskState,
    pub runner_payout_cents: i64,
    pub service_fee_cents: i64,
    pub total_cents: i64,
    pub assigned_runner_id: Option<String>,
}

/// `p` is the public view of `t`.
pub open spec fn is_public_view(p: PublicTask, t: RunnerTask) -> bool {
    &&& p.id == t.id
    &&& p.title == t.title
    &&& p.description == t.description
    &&& p.category == t.category
    &&& p.pickup_area == t.pickup_area
    &&& p.dropoff_area == t.dropoff_area
    &&& p.distance_tenths_mile == t.distance_tenths_mile
    &&& p.estimated_minutes == t.estimated_minutes
    &&& p.weight == t.weight
    &&& p.urgency == t.urgency
    &&& p.state == t.state
    &&& p.runner_payout_cents == t.runner_payout_cents
    &&& p.service_fee_cents == t.service_fee_cents
    &&& p.total_cents == t.total_cents
    &&& p.assigned_runner_id == t.assigned_runner_id
}

fn copy_text_option(value: &Option<String>) -> (copy: Option<String>)
    ensures
        copy == *value,
{
    match value {
        Some(s) => Some(s.clone()),
        None => None,
    }
}

impl PublicTask {
    /// The public view of a task.
    pub fn from_task(task: &RunnerTask) -> (public: PublicTask)
        ensures
            is_public_view(public, *task),
    {
        PublicTask {
            id: task.id.clone(),
            title: task.title.clone(),
            description: task.description.clone(),
            category: task.category,
            pickup_area: task.pickup_area.clone(),
            dropoff_area: task.dropoff_area.clone(),
            distance_tenths_mile: task.distance_tenths_mile,
            estimated_minutes: task.estimated_minutes,
            weight: task.weight,
            urgency: task.urgency,
            state: task.state,
            runner_payout_cents: task.runner_payout_cents,
            service_fee_cents: task.service_fee_cents,
            total_cents: task.total_cents,
            assigned_runner_id: copy_text_option(&task.assigned_runner_id),
        }
    }
}

/// A task as one viewer sees it: the exact addresses only for its assigned runner.
#[derive(Debug, Clone)]
pub struct TaskDetail {
    pub public: PublicTask,
    pub pickup_address: Option<String>,
    pub dropoff_address: Option<String>,
}

/// A runner's released payouts.
#[derive(Debug, Clone)]
pub struct Earnings {
    pub runner_id: String,
    pub available_cents: i64,
    pub completed_tasks: u32,
    pub currency: String,
}

impl Earnings {
    pub fn duplicate(&self) -> (copy: Earnings)
        ensures
            copy == *self,
    {
        Earnings {
            runner_id: self.runner_id.clone(),
            available_cents: self.available_cents,
            completed_tasks: self.completed_tasks,
            currency: self.currency.clone(),
        }
    }
}

/// A refusal from the demo API: an HTTP status with a code and a message.
#[derive(Debug, Clone, Copy)]
pub struct DemoApiError {
    pub status: u16,
    pub code: &'static str,
    pub message: &'static str,
}

pub open spec fn is_error(e: DemoApiError, status: u16, code: Seq<char>) -> bool {
    e.status == status && e.code@ == code
}

fn error(status: u16, code: &'static str, message: &'static str) -> (e: DemoApiError)
    ensures
        e.status == status,
        e.code == code,
        e.message == message,
{
    DemoApiError { status, code, message }
}

/// The first position from `from` on of an entry whose `id` is `key`.
pub open spec fn task_index(s: Seq<RunnerTask>, key: Seq<char>, from: int) -> Option<int>
    decreases s.len() - from,
{
    if from < 0 || from >= s.len() {
        None
    } else if s[from].id@ == key {
        Some(from)
    } else {
        task_index(s, key, from + 1)
    }
}

proof fn lemma_task_index(s: Seq<RunnerTask>, key: Seq<char>, from: int)
    requires
        0 <= from <= s.len(),
    ensures
        match task_index(s, key, from) {
            Some(i) => from <= i < s.len() && s[i].id@ == key && forall|j: int|
                from <= j < i ==> s[j].id@ != key,
            None => forall|j: int| from <= j < s.len() ==> s[j].id@ != key,
        },
    decreases s.len() - from,
{
    if from < s.len() {
        lemma_task_index(s, key, from + 1);
    }
}

/// The first position from `from` on of an entry whose `id` is `key`.
pub open spec fn application_index(s: Seq<RunnerApplication>, key: Seq<char>, from: int) -> Option<int>
    decreases s.len() - from,
{
    if from < 0 || from >= s.len() {
        None
    } else if s[from].id@ == key {
        Some(from)
    } else {
        application_index(s, key, from + 1)
    }
}

proof fn lemma_application_index(s: Seq<RunnerApplication>, key: Seq<char>, from: int)
    requires
        0 <= from <= s.len(),
    ensures
        match application_index(s, key, from) {
            Some(i) => from <= i < s.len() && s[i].id@ == key && forall|j: int|
                from <= j < i ==> s[j].id@ != key,
            None => forall|j: int| from <= j < s.len() ==> s[j].id@ != key,
        },
    decreases s.len() - from,
{
    if from < s.len() {
        lemma_application_index(s, key, from + 1);
    }
}

/// The first position from `from` on of an entry whose `runner_id` is `key`.
pub open spec fn earnings_index(s: Seq<Earnings>, key: Seq<char>, from: int) -> Option<int>
    decreases s.len() - from,
{
    if from < 0 || from >= s.len() {
        None
    } else if s[from].runner_id@ == key {
        Some(from)
    } else {
        earnings_index(s, key, from + 1)
    }
}

proof fn lemma_earnings_index(s: Seq<Earnings>, key: Seq<char>, from: int)
    requires
        0 <= from <= s.len(),
    ensures
        match earnings_index(s, key, from) {
            Some(i) => from <= i < s.len() && s[i].runner_id@ == key && forall|j: int|
                from <= j < i ==> s[j].runner_id@ != key,
            None => forall|j: int| from <= j < s.len() ==> s[j].runner_id@ != key,
        },
    decreases s.len() - from,
{
    if from < s.len() {
        lemma_earnings_index(s, key, from + 1);
    }
}

/// Two optional texts that hold the same characters (or are both absent).
pub open spec fn same_text_option(a: Option<String>, b: Option<String>) -> bool {
    match (a, b) {
        (None, None) => true,
        (Some(x), Some(y)) => x@ == y@,
        _ => false,
    }
}

fn text_option_eq(a: &Option<String>, b: &Option<String>) -> (same: bool)
    ensures
        same == same_text_option(*a, *b),
{
    match (a, b) {
        (None, None) => true,
        (Some(x), Some(y)) => text_eq(x.as_str(), y.as_str()),
        _ => false,
    }
}

/// The in-memory demo store. Each runner has at most one earnings record.
pub struct RunnerDemoStore {
    pub tasks: Vec<RunnerTask>,
    pub applications: Vec<RunnerApplication>,
    pub earnings: Vec<Earnings>,
}

/// A customer's request to post an errand.
#[derive(Debug, Clone)]
pub struct CreateTaskRequest {
    pub customer_id: String,
    pub title: String,
    pub description: String,
    pub pickup_area: String,
    pub dropoff_area: String,
    pub pickup_address: String,
    pub dropoff_address: String,
    pub category: TaskCategory,
    pub distance_tenths_mile: u32,
    pub estimated_minutes: u32,
    pub weight: WeightBand,
    pub urgency: Urgency,
    pub waiting_minutes: u32,
    pub safety_confirmed: bool,
}

/// A request to act on a task in one role.
#[derive(Debug, Clone)]
pub struct TaskActionRequest {
    pub action: String,
    pub role: String,
    pub runner_id: Option<String>,
    pub completion_code: Option<String>,
}

/// An application to become a runner.
#[derive(Debug, Clone)]
pub struct ApplyRequest {
    pub name: String,
    pub age_confirmed: bool,
    pub transport: String,
    pub service_radius_miles: u32,
}

/// Counts for the admin dashboard.
#[derive(Debug, Clone, Copy)]
pub struct AdminSummary {
    pub total_tasks: usize,
    pub active_tasks: usize,
    pub pending_applications: usize,
    pub approved_runners: usize,
    pub completed_tasks: usize,
    pub disputed_tasks: usize,
    pub prohibited_tasks_blocked: u32,
}

/// The role named `value`, if any.
pub open spec fn role_named(value: Seq<char>) -> Option<RunnerRole> {
    if value == "customer"@ {
        Some(RunnerRole::Customer)
    } else if value == "runner"@ {
        Some(RunnerRole::Runner)
    } else if value == "admin"@ {
        Some(RunnerRole::Admin)
    } else {
        None
    }
}

/// The action named `value`, if any.
pub open spec fn action_named(value: Seq<char>) -> Option<RunnerAction> {
    if value == "quote"@ {
        Some(RunnerAction::Quote)
    } else if value == "fund"@ {
        Some(RunnerAction::Fund)
    } else if value == "publish"@ {
        Some(RunnerAction::Publish)
    } else if value == "accept"@ {
        Some(RunnerAction::Accept)
    } else if value == "confirm_pickup"@ {
        Some(RunnerAction::ConfirmPickup)
    } else if value == "start_delivery"@ {
        Some(RunnerAction::StartDelivery)
    } else if value == "complete"@ {
        Some(RunnerAction::Complete)
    } else if value == "cancel"@ {
        Some(RunnerAction::Cancel)
    } else if value == "dispute"@ {
        Some(RunnerAction::Dispute)
    } else if value == "expire"@ {
        Some(RunnerAction::Expire)
    } else {
        None
    }
}

fn parse_role(value: &str) -> (role: Result<RunnerRole, DemoApiError>)
    ensures
        match role_named(value@) {
            Some(r) => role == Ok::<RunnerRole, DemoApiError>(r),
            None => role matches Err(e) && is_error(e, 400, "invalid_role"@),
        },
{
    if text_eq(value, "customer") {
        Ok(RunnerRole::Customer)
    } else if text_eq(value, "runner") {
        Ok(RunnerRole::Runner)
    } else if text_eq(value, "admin") {
        Ok(RunnerRole::Admin)
    } else {
        Err(error(400, "invalid_role", "Unknown role"))
    }
}

fn parse_action(value: &str) -> (action: Result<RunnerAction, DemoApiError>)
    ensures
        match action_named(value@) {
            Some(a) => action == Ok::<RunnerAction, DemoApiError>(a),
            None => action matches Err(e) && is_error(e, 400, "invalid_action"@),
        },
{
    if text_eq(value, "quote") {
        Ok(RunnerAction::Quote)
    } else if text_eq(value, "fund") {
        Ok(RunnerAction::Fund)
    } else if text_eq(value, "publish") {
        Ok(RunnerAction::Publish)
    } else if text_eq(value, "accept") {
        Ok(RunnerAction::Accept)
    } else if text_eq(value, "confirm_pickup") {
        Ok(RunnerAction::ConfirmPickup)
    } else if text_eq(value, "start_delivery") {
        Ok(RunnerAction::StartDelivery)
    } else if text_eq(value, "complete") {
        Ok(RunnerAction::Complete)
    } else if text_eq(value, "cancel") {
        Ok(RunnerAction::Cancel)
    } else if text_eq(value, "dispute") {
        Ok(RunnerAction::Dispute)
    } else if text_eq(value, "expire") {
        Ok(RunnerAction::Expire)
    } else {
        Err(error(400, "invalid_action", "Unknown action"))
    }
}

/// The API refusal for a domain error.
pub open spec fn runner_error_status(e: RunnerError) -> (u16, Seq<char>) {
    match e {
        RunnerError::ProhibitedTask => (422, "prohibited_task"@),
        RunnerError::EmergencyTask => (422, "emergency_task"@),
        RunnerError::InvalidQuoteInput => (422, "invalid_quote"@),
        RunnerError::InvalidTransition => (409, "invalid_transition"@),
    }
}

pub fn runner_error(error_value: RunnerError) -> (e: DemoApiError)
    ensures
        is_error(e, runner_error_status(error_value).0, runner_error_status(error_value).1),
{
    match error_value {
        RunnerError::ProhibitedTask => error(422, "prohibited_task", "Tasks of this kind are prohibited"),
        RunnerError::EmergencyTask => error(422, "emergency_task", "Contact emergency services instead"),
        RunnerError::InvalidQuoteInput => error(
            422,
            "invalid_quote",
            "Distance, time, or waiting values are invalid",
        ),
        RunnerError::InvalidTransition => error(409, "invalid_transition", "Action is not allowed"),
    }
}

impl RunnerTask {
    pub fn duplicate(&self) -> (copy: RunnerTask)
        ensures
            copy == *self,
    {
        RunnerTask {
            id: self.id.clone(),
            customer_id: self.customer_id.clone(),
            title: self.title.clone(),
            description: self.description.clone(),
            category: self.category,
            pickup_area: self.pickup_area.clone(),
            dropoff_area: self.dropoff_area.clone(),
            pickup_address: self.pickup_address.clone(),
            dropoff_address: self.dropoff_address.clone(),
            distance_tenths_mile: self.distance_tenths_mile,
            estimated_minutes: self.estimated_minutes,
            weight: self.weight,
            urgency: self.urgency,
            state: self.state,
            runner_payout_cents: self.runner_payout_cents,
            service_fee_cents: self.service_fee_cents,
            total_cents: self.total_cents,
            assigned_runner_id: copy_text_option(&self.assigned_runner_id),
            completion_code: self.completion_code.clone(),
            payout_released: self.payout_released,
        }
    }
}

/// The quote input of a task that waits no time.
pub open spec fn seed_input(
    category: TaskCategory,
    distance: u32,
    minutes: u32,
    weight: WeightBand,
    urgency: Urgency,
) -> RunnerQuoteInput {
    RunnerQuoteInput {
        category,
        distance_tenths_mile: distance,
        estimated_minutes: minutes,
        weight,
        urgency,
        waiting_minutes: 0,
    }
}

/// A published demo task, numbered `number`, priced by the runner quote rules.
#[verifier::rlimit(20)]
fn seed_task(
    number: u64,
    title: &str,
    description: &str,
    category: TaskCategory,
    pickup_area: &str,
    dropoff_area: &str,
    distance_tenths_mile: u32,
    estimated_minutes: u32,
    weight: WeightBand,
    urgency: Urgency,
    completion_code: &str,
) -> (task: RunnerTask)
    requires
        quote_rejection(
            seed_input(category, distance_tenths_mile, estimated_minutes, weight, urgency),
        ) is None,
    ensures
        task.id@ == "task-"@ + decimal(number as nat),
        task.customer_id@ == "customer-1"@,
        task.title@ == title@,
        task.description@ == description@,
        task.category == category,
        task.distance_tenths_mile == distance_tenths_mile,
        task.estimated_minutes == estimated_minutes,
        task.weight == weight,
        task.urgency == urgency,
        task.pickup_area@ == pickup_area@,
        task.dropoff_area@ == dropoff_area@,
        task.pickup_address@ == decimal(number as nat) + " Fictional Pickup"@,
        task.dropoff_address@ == decimal(number as nat) + " Demo Dropoff"@,
        task.state == RunnerTaskState::Available,
        task.runner_payout_cents == runner_payout(
            seed_input(category, distance_tenths_mile, estimated_minutes, weight, urgency),
        ),
        task.service_fee_cents == runner_service_fee(task.runner_payout_cents as int),
        task.total_cents == task.runner_payout_cents + task.service_fee_cents,
        task.assigned_runner_id is None,
        task.completion_code@ == completion_code@,
        !task.payout_released,
{
    let input = RunnerQuoteInput {
        category,
        distance_tenths_mile,
        estimated_minutes,
        weight,
        urgency,
        waiting_minutes: 0,
    };
    let quote = match quote_runner_task(input) {
        Ok(q) => q,
        Err(_) => vstd::pervasive::unreached(),
    };
    let mut id = text("task-");
    push_decimal(&mut id, number);
    let mut pickup_address = String::new();
    push_decimal(&mut pickup_address, number);
    push_text(&mut pickup_address, " Fictional Pickup");
    let mut dropoff_address = String::new();
    push_decimal(&mut dropoff_address, number);
    push_text(&mut dropoff_address, " Demo Dropoff");
    proof {
        assert(Seq::<char>::empty() + decimal(number as nat) =~= decimal(number as nat));
    }
    RunnerTask {
        id,
        customer_id: text("customer-1"),
        title: text(title),
        description: text(description),
        category,
        pickup_area: text(pickup_area),
        dropoff_area: text(dropoff_area),
        pickup_address,
        dropoff_address,
        distance_tenths_mile,
        estimated_minutes,
        weight,
        urgency,
        state: RunnerTaskState::Available,
        runner_payout_cents: quote.runner_payout_cents,
        service_fee_cents: quote.service_fee_cents,
        total_cents: quote.total_cents,
        assigned_runner_id: None,
        completion_code: text(completion_code),
        payout_released: false,
    }
}

/// The quote input of seeded task `i` (0 to 3).
pub open spec fn seeded_input(i: int) -> RunnerQuoteInput {
    if i == 0 {
        seed_input(TaskCategory::PackagePickup, 32, 35, WeightBand::Medium, Urgency::SameDay)
    } else if i == 1 {
        seed_input(TaskCategory::BsrRentalDelivery, 58, 48, WeightBand::Medium, Urgency::Flexible)
    } else if i == 2 {
        seed_input(TaskCategory::GroceryPickup, 27, 32, WeightBand::Heavy, Urgency::Immediate)
    } else {
        seed_input(TaskCategory::DocumentDelivery, 71, 52, WeightBand::Light, Urgency::SameDay)
    }
}

/// The title, description, pickup area and drop-off area of seeded task `i`.
pub open spec fn seeded_texts(i: int) -> (Seq<char>, Seq<char>, Seq<char>, Seq<char>) {
    if i == 0 {
        (
            "Pick up a package and deliver it nearby"@,
            "A sealed medium package; no stairs or residence entry."@,
            "Wellesley Square"@,
            "Babson Park"@,
        )
    } else if i == 1 {
        (
            "Deliver a rented camera kit"@,
            "BSR Hub protected rental delivery in a padded case."@,
            "Needham Center"@,
            "Newton Highlands"@,
        )
    } else if i == 2 {
        (
            "Pick up groceries for a student team"@,
            "Four prepaid grocery bags from the service counter."@,
            "Wellesley Hills"@,
            "Babson Park"@,
        )
    } else {
        (
            "Deliver signed event documents"@,
            "One sealed folder for a campus event organizer."@,
            "Weston Center"@,
            "Wellesley Square"@,
        )
    }
}

/// The completion code of seeded task `i`.
pub open spec fn seeded_code(i: int) -> Seq<char> {
    if i == 0 {
        "482731"@
    } else if i == 1 {
        "735204"@
    } else if i == 2 {
        "195628"@
    } else {
        "604319"@
    }
}

/// The store after `s` releases a payout of `payout` cents to `runner`: the
/// runner's earnings record gains the payout and one completed task, or a new
/// record is opened for a runner who had none.
pub open spec fn is_credit(before: Seq<Earnings>, after: Seq<Earnings>, runner: Seq<char>, payout: int) -> bool {
    match earnings_index(before, runner, 0) {
        Some(j) => {
            &&& after.len() == before.len()
            &&& forall|i: int| 0 <= i < before.len() && i != j ==> after[i] == before[i]
            &&& after[j].runner_id == before[j].runner_id
            &&& after[j].available_cents == before[j].available_cents + payout
            &&& after[j].completed_tasks == before[j].completed_tasks + 1
            &&& after[j].currency == before[j].currency
        },
        None => {
            &&& after.len() == before.len() + 1
            &&& after.subrange(0, before.len() as int) == before
            &&& after.last().runner_id@ == runner
            &&& after.last().available_cents == payout
            &&& after.last().completed_tasks == 1
            &&& after.last().currency@ == "usd"@
        },
    }
}

/// The checks an action goes through, in order: role, action, the task, the
/// assigned runner (for runner actions other than accepting), the completion
/// code (for completing) and the state machine. Either the first refusal as a
/// status and code, or the task's position, the role, the action and the next state.
pub open spec fn action_checks(
    tasks: Seq<RunnerTask>,
    id: Seq<char>,
    input: TaskActionRequest,
) -> Result<(int, RunnerRole, RunnerAction, RunnerTaskState), (u16, Seq<char>)> {
    let role = role_named(input.role@);
    let action = action_named(input.action@);
    let k = task_index(tasks, id, 0);
    if role is None {
        Err((400, "invalid_role"@))
    } else if action is None {
        Err((400, "invalid_action"@))
    } else if k is None {
        Err((404, "task_not_found"@))
    } else if role->0 == RunnerRole::Runner && action->0 != RunnerAction::Accept
        && !same_text_option(tasks[k->0].assigned_runner_id, input.runner_id) {
        Err((403, "wrong_runner"@))
    } else if action->0 == RunnerAction::Complete && !(input.completion_code matches Some(code)
        && code@ == tasks[k->0].completion_code@) {
        Err((422, "invalid_completion_code"@))
    } else if next_task_state(tasks[k->0].state, role->0, action->0) is None {
        Err((409, "invalid_transition"@))
    } else {
        Ok((k->0, role->0, action->0, next_task_state(tasks[k->0].state, role->0, action->0)->0))
    }
}

/// Task `t` after a permitted action: its next state, the runner who accepted
/// it, and its payout marked released once it is completed.
pub open spec fn task_after(
    t: RunnerTask,
    action: RunnerAction,
    next: RunnerTaskState,
    runner_id: Option<String>,
) -> RunnerTask {
    RunnerTask {
        state: next,
        assigned_runner_id: if action == RunnerAction::Accept {
            runner_id
        } else {
            t.assigned_runner_id
        },
        payout_released: t.payout_released || next == RunnerTaskState::Completed,
        ..t
    }
}

/// Whether an action completes a task whose payout has not been released yet.
pub open spec fn releases_payout(tasks: Seq<RunnerTask>, id: Seq<char>, input: TaskActionRequest) -> bool {
    action_checks(tasks, id, input) matches Ok(c) && c.3 == RunnerTaskState::Completed
        && !tasks[c.0].payout_released
}

/// The inputs on which an action cannot be carried out: releasing the payout of
/// a task that no runner accepted, or a payout that would overflow its
/// runner's earnings.
pub open spec fn action_cannot_release(store: RunnerDemoStore, id: Seq<char>, input: TaskActionRequest) -> bool {
    releases_payout(store.tasks@, id, input) && {
        let checked = action_checks(store.tasks@, id, input)->Ok_0;
        let t = store.tasks@[checked.0];
        match t.assigned_runner_id {
            None => true,
            Some(r) => match earnings_index(store.earnings@, r@, 0) {
                Some(j) => store.earnings@[j].available_cents + t.runner_payout_cents > i64::MAX
                    || store.earnings@[j].available_cents + t.runner_payout_cents < i64::MIN
                    || store.earnings@[j].completed_tasks == u32::MAX,
                None => false,
            },
        }
    }
}

impl RunnerDemoStore {
    /// The demo store as it starts: four published tasks, one approved runner
    /// application and an empty earnings record for `runner-1`.
    pub fn seeded() -> (store: RunnerDemoStore)
        ensures
            store.tasks@.len() == 4,
            forall|i: int| 0 <= i < 4 ==> {
                let t = #[trigger] store.tasks@[i];
                let input = seeded_input(i);
                let texts = seeded_texts(i);
                &&& t.id@ == "task-"@ + decimal((i + 1) as nat)
                &&& t.customer_id@ == "customer-1"@
                &&& t.title@ == texts.0
                &&& t.description@ == texts.1
                &&& t.pickup_area@ == texts.2
                &&& t.dropoff_area@ == texts.3
                &&& t.pickup_address@ == decimal((i + 1) as nat) + " Fictional Pickup"@
                &&& t.dropoff_address@ == decimal((i + 1) as nat) + " Demo Dropoff"@
                &&& t.state == RunnerTaskState::Available
                &&& t.category == input.category
                &&& t.distance_tenths_mile == input.distance_tenths_mile
                &&& t.estimated_minutes == input.estimated_minutes
                &&& t.weight == input.weight
                &&& t.urgency == input.urgency
                &&& t.runner_payout_cents == runner_payout(input)
                &&& t.service_fee_cents == runner_service_fee(t.runner_payout_cents as int)
                &&& t.total_cents == t.runner_payout_cents + t.service_fee_cents
                &&& t.assigned_runner_id is None
                &&& !t.payout_released
                &&& t.completion_code@ == seeded_code(i)
            },
            store.applications@.len() == 1,
            store.applications@[0].id@ == "application-1"@,
            store.applications@[0].name@ == "Jordan Smith"@,
            store.applications@[0].age_confirmed,
            store.applications@[0].transport@ == "car"@,
            store.applications@[0].service_radius_miles == 12,
            store.applications@[0].status@ == "approved"@,
            store.earnings@.len() == 1,
            store.earnings@[0].runner_id@ == "runner-1"@,
            store.earnings@[0].available_cents == 0,
            store.earnings@[0].completed_tasks == 0,
            store.earnings@[0].currency@ == "usd"@,
    {
        let mut tasks: Vec<RunnerTask> = Vec::new();
        tasks.push(
            seed_task(
                1,
                "Pick up a package and deliver it nearby",
                "A sealed medium package; no stairs or residence entry.",
                TaskCategory::PackagePickup,
                "Wellesley Square",
                "Babson Park",
                32,
                35,
                WeightBand::Medium,
                Urgency::SameDay,
                "482731",
            ),
        );
        tasks.push(
            seed_task(
                2,
                "Deliver a rented camera kit",
                "BSR Hub protected rental delivery in a padded case.",
                TaskCategory::BsrRentalDelivery,
                "Needham Center",
                "Newton Highlands",
                58,
                48,
                WeightBand::Medium,
                Urgency::Flexible,
                "735204",
            ),
        );
        tasks.push(
            seed_task(
                3,
                "Pick up groceries for a student team",
                "Four prepaid grocery bags from the service counter.",
                TaskCategory::GroceryPickup,
                "Wellesley Hills",
                "Babson Park",
                27,
                32,
                WeightBand::Heavy,
                Urgency::Immediate,
                "195628",
            ),
        );
        tasks.push(
            seed_task(
                4,
                "Deliver signed event documents",
                "One sealed folder for a campus event organizer.",
                TaskCategory::DocumentDelivery,
                "Weston Center",
                "Wellesley Square",
                71,
                52,
                WeightBand::Light,
                Urgency::SameDay,
                "604319",
            ),
        );
        let mut applications: Vec<RunnerApplication> = Vec::new();
        applications.push(
            RunnerApplication {
                id: text("application-1"),
                name: text("Jordan Smith"),
                age_confirmed: true,
                transport: text("car"),
                service_radius_miles: 12,
                status: text("approved"),
            },
        );
        let mut earnings: Vec<Earnings> = Vec::new();
        earnings.push(
            Earnings {
                runner_id: text("runner-1"),
                available_cents: 0,
                completed_tasks: 0,
                currency: text("usd"),
            },
        );
        RunnerDemoStore { tasks, applications, earnings }
    }

    /// The public view of every task, in order.
    pub fn list_tasks(&self) -> (list: Vec<PublicTask>)
        ensures
            list@.len() == self.tasks@.len(),
            forall|i: int| 0 <= i < list@.len() ==> is_public_view(#[trigger] list@[i], self.tasks@[i]),
    {
        let mut list: Vec<PublicTask> = Vec::new();
        let mut i: usize = 0;
        while i < self.tasks.len()
            invariant
                0 <= i <= self.tasks@.len(),
                list@.len() == i,
                forall|k: int| 0 <= k < i ==> is_public_view(#[trigger] list@[k], self.tasks@[k]),
            decreases self.tasks@.len() - i,
        {
            list.push(PublicTask::from_task(&self.tasks[i]));
            i = i + 1;
        }
        list
    }

    fn find_task(&self, id: &str) -> (k: Option<usize>)
        ensures
            match task_index(self.tasks@, id@, 0) {
                Some(j) => 0 <= j < self.tasks@.len() && k is Some && k->0 == j,
                None => k is None,
            },
            k matches Some(i) ==> i < self.tasks@.len(),
    {
        proof {
            lemma_task_index(self.tasks@, id@, 0);
        }
        let mut i: usize = 0;
        while i < self.tasks.len()
            invariant
                0 <= i <= self.tasks@.len(),
                task_index(self.tasks@, id@, 0) == task_index(self.tasks@, id@, i as int),
            decreases self.tasks@.len() - i,
        {
            if text_eq(self.tasks[i].id.as_str(), id) {
                return Some(i);
            }
            i = i + 1;
        }
        None
    }

    /// A task as `runner_id` sees it: its exact addresses only when that
    /// runner has accepted it.
    pub fn task_detail(&self, id: &str, runner_id: Option<String>) -> (detail: Result<
        TaskDetail,
        DemoApiError,
    >)
        ensures
            match task_index(self.tasks@, id@, 0) {
                None => detail matches Err(e) && is_error(e, 404, "task_not_found"@),
                Some(k) => detail matches Ok(d) && {
                    let t = self.tasks@[k];
                    let may_view = t.assigned_runner_id is Some && same_text_option(
                        t.assigned_runner_id,
                        runner_id,
                    );
                    &&& is_public_view(d.public, t)
                    &&& d.pickup_address == (if may_view {
                        Some(t.pickup_address)
                    } else {
                        None
                    })
                    &&& d.dropoff_address == (if may_view {
                        Some(t.dropoff_address)
                    } else {
                        None
                    })
                },
            },
    {
        let k = match self.find_task(id) {
            Some(k) => k,
            None => return Err(error(404, "task_not_found", "Task not found")),
        };
        let task = &self.tasks[k];
        let may_view = task.assigned_runner_id.is_some() && text_option_eq(
            &task.assigned_runner_id,
            &runner_id,
        );
        Ok(
            TaskDetail {
                public: PublicTask::from_task(task),
                pickup_address: if may_view {
                    Some(task.pickup_address.clone())
                } else {
                    None
                },
                dropoff_address: if may_view {
                    Some(task.dropoff_address.clone())
                } else {
                    None
                },
            },
        )
    }
}

impl RunnerDemoStore {
    fn find_earnings(&self, runner_id: &str) -> (k: Option<usize>)
        ensures
            match earnings_index(self.earnings@, runner_id@, 0) {
                Some(j) => 0 <= j < self.earnings@.len() && k is Some && k->0 == j,
                None => k is None,
            },
            k matches Some(i) ==> i < self.earnings@.len(),
    {
        proof {
            lemma_earnings_index(self.earnings@, runner_id@, 0);
        }
        let mut i: usize = 0;
        while i < self.earnings.len()
            invariant
                0 <= i <= self.earnings@.len(),
                earnings_index(self.earnings@, runner_id@, 0) == earnings_index(self.earnings@, runner_id@, i as int),
            decreases self.earnings@.len() - i,
        {
            if text_eq(self.earnings[i].runner_id.as_str(), runner_id) {
                return Some(i);
            }
            i = i + 1;
        }
        None
    }

    /// Credits a released payout to a runner's earnings.
    fn credit(&mut self, runner_id: String, payout_cents: i64)
        requires
            match earnings_index(old(self).earnings@, runner_id@, 0) {
                Some(j) => i64::MIN <= old(self).earnings@[j].available_cents + payout_cents
                    <= i64::MAX && old(self).earnings@[j].completed_tasks < u32::MAX,
                None => true,
            },
        ensures
            is_credit(old(self).earnings@, final(self).earnings@, runner_id@, payout_cents as int),
            final(self).tasks == old(self).tasks,
            final(self).applications == old(self).applications,
    {
        match self.find_earnings(runner_id.as_str()) {
            Some(j) => {
                let mut record = self.earnings[j].duplicate();
                record.available_cents = record.available_cents + payout_cents;
                record.completed_tasks = record.completed_tasks + 1;
                self.earnings.set(j, record);
            },
            None => {
                self.earnings.push(
                    Earnings {
                        runner_id,
                        available_cents: payout_cents,
                        completed_tasks: 1,
                        currency: text("usd"),
                    },
                );
                assert(self.earnings@.subrange(0, old(self).earnings@.len() as int) =~= old(
                    self,
                ).earnings@);
            },
        }
    }

    /// Whether `action_cannot_release` holds: the action would release a payout
    /// with no runner to receive it, or one its runner's earnings cannot hold.
    pub fn action_cannot_release(&self, id: &str, input: &TaskActionRequest) -> (blocked: bool)
        ensures
            blocked == action_cannot_release(*self, id@, *input),
    {
        let role = match parse_role(input.role.as_str()) {
            Ok(r) => r,
            Err(_) => return false,
        };
        let action = match parse_action(input.action.as_str()) {
            Ok(a) => a,
            Err(_) => return false,
        };
        let k = match self.find_task(id) {
            Some(k) => k,
            None => return false,
        };
        let task = &self.tasks[k];
        if role == RunnerRole::Runner && action != RunnerAction::Accept && !text_option_eq(
            &task.assigned_runner_id,
            &input.runner_id,
        ) {
            return false;
        }
        if action == RunnerAction::Complete && !completion_code_matches(
            &input.completion_code,
            task.completion_code.as_str(),
        ) {
            return false;
        }
        let next = match task.state.transition_for(role, action) {
            Ok(n) => n,
            Err(_) => return false,
        };
        if next != RunnerTaskState::Completed || task.payout_released {
            return false;
        }
        match &task.assigned_runner_id {
            None => true,
            Some(runner) => match self.find_earnings(runner.as_str()) {
                Some(j) => {
                    let record = &self.earnings[j];
                    (task.runner_payout_cents > 0 && record.available_cents > i64::MAX
                        - task.runner_payout_cents) || (task.runner_payout_cents < 0
                        && record.available_cents < i64::MIN - task.runner_payout_cents)
                        || record.completed_tasks == u32::MAX
                },
                None => false,
            },
        }
    }

    /// Acts on a task in one role. Runners other than the one assigned may
    /// only accept; completing needs the task's completion code; the state
    /// machine decides the rest. Completing releases the runner's payout once.
    pub fn task_action(&mut self, id: &str, input: TaskActionRequest) -> (result: Result<
        PublicTask,
        DemoApiError,
    >)
        requires
            !action_cannot_release(*old(self), id@, input),
        ensures
            final(self).applications == old(self).applications,
            match action_checks(old(self).tasks@, id@, input) {
                Err((status, code)) => result matches Err(e) && is_error(e, status, code)
                    && final(self).tasks == old(self).tasks && final(self).earnings == old(
                    self,
                ).earnings,
                Ok((k, role, action, next)) => {
                    let t = old(self).tasks@[k];
                    if action == RunnerAction::Accept && input.runner_id is None {
                        &&& result matches Err(e) && is_error(e, 422, "runner_required"@)
                        &&& final(self).tasks@ == old(self).tasks@.update(
                            k,
                            task_after(t, RunnerAction::Quote, next, None),
                        )
                        &&& final(self).earnings == old(self).earnings
                    } else {
                        let after = task_after(t, action, next, input.runner_id);
                        &&& result matches Ok(p) && is_public_view(p, after)
                        &&& final(self).tasks@ == old(self).tasks@.update(k, after)
                        &&& if next == RunnerTaskState::Completed && !t.payout_released {
                            is_credit(
                                old(self).earnings@,
                                final(self).earnings@,
                                t.assigned_runner_id->0@,
                                t.runner_payout_cents as int,
                            )
                        } else {
                            final(self).earnings == old(self).earnings
                        }
                    }
                },
            },
    {
        let role = parse_role(input.role.as_str())?;
        let action = parse_action(input.action.as_str())?;
        let k = match self.find_task(id) {
            Some(k) => k,
            None => return Err(error(404, "task_not_found", "Task not found")),
        };
        if role == RunnerRole::Runner && action != RunnerAction::Accept && !text_option_eq(
            &self.tasks[k].assigned_runner_id,
            &input.runner_id,
        ) {
            return Err(error(403, "wrong_runner", "Only the assigned runner can update the task"));
        }
        if action == RunnerAction::Complete && !completion_code_matches(
            &input.completion_code,
            self.tasks[k].completion_code.as_str(),
        ) {
            return Err(error(422, "invalid_completion_code", "The completion code is incorrect"));
        }
        let next = match self.tasks[k].state.transition_for(role, action) {
            Ok(n) => n,
            Err(_) => return Err(error(409, "invalid_transition", "Action is not allowed")),
        };
        let mut task = self.tasks[k].duplicate();
        task.state = next;
        if action == RunnerAction::Accept {
            match input.runner_id {
                Some(runner_id) => {
                    task.assigned_runner_id = Some(runner_id);
                },
                None => {
                    self.tasks.set(k, task);
                    return Err(error(422, "runner_required", "A runner ID is required"));
                },
            }
        }
        let release = next == RunnerTaskState::Completed && !task.payout_released;
        if release {
            task.payout_released = true;
        }
        let public = PublicTask::from_task(&task);
        let payout_cents = task.runner_payout_cents;
        let runner = copy_text_option(&task.assigned_runner_id);
        self.tasks.set(k, task);
        if release {
            match runner {
                Some(runner_id) => self.credit(runner_id, payout_cents),
                None => {},
            }
        }
        Ok(public)
    }
}

fn completion_code_matches(given: &Option<String>, expected: &str) -> (same: bool)
    ensures
        same == (given matches Some(code) && code@ == expected@),
{
    match given {
        Some(code) => text_eq(code.as_str(), expected),
        None => false,
    }
}

/// Whether a task's title, description, areas and addresses are all present
/// once surrounding white space is removed.
pub open spec fn task_text_complete(input: CreateTaskRequest) -> bool {
    &&& trimmed(input.title@).len() > 0
    &&& trimmed(input.description@).len() > 0
    &&& trimmed(input.pickup_area@).len() > 0
    &&& trimmed(input.dropoff_area@).len() > 0
    &&& trimmed(input.pickup_address@).len() > 0
    &&& trimmed(input.dropoff_address@).len() > 0
}

pub open spec fn task_quote_input(input: CreateTaskRequest) -> RunnerQuoteInput {
    RunnerQuoteInput {
        category: input.category,
        distance_tenths_mile: input.distance_tenths_mile,
        estimated_minutes: input.estimated_minutes,
        weight: input.weight,
        urgency: input.urgency,
        waiting_minutes: input.waiting_minutes,
    }
}

fn is_blank(s: &String) -> (blank: bool)
    ensures
        blank == (trimmed(s@).len() == 0),
{
    trim(s.as_str()).unicode_len() == 0
}

fn trimmed_text(s: &String) -> (t: String)
    ensures
        t@ == trimmed(s@),
{
    text(trim(s.as_str()))
}

/// The status of an application.
pub open spec fn application_status(a: RunnerApplication) -> Seq<char> {
    a.status@
}

impl RunnerDemoStore {
    /// Posts a customer's errand, quoted and awaiting funding. The safety
    /// confirmation and every text field are required; the quote rules
    /// decide the rest.
    pub fn create_task(&mut self, input: CreateTaskRequest) -> (result: Result<
        PublicTask,
        DemoApiError,
    >)
        requires
            old(self).tasks@.len() + 410_000 <= usize::MAX,
        ensures
            final(self).applications == old(self).applications,
            final(self).earnings == old(self).earnings,
            !input.safety_confirmed || !task_text_complete(input) ==> (result matches Err(e)
                && is_error(e, 422, "invalid_task"@) && final(self).tasks == old(self).tasks),
            input.safety_confirmed && task_text_complete(input) ==> match quote_rejection(
                task_quote_input(input),
            ) {
                Some(r) => result matches Err(e) && is_error(
                    e,
                    runner_error_status(r).0,
                    runner_error_status(r).1,
                ) && final(self).tasks == old(self).tasks,
                None => result matches Ok(p) && {
                    let n = old(self).tasks@.len();
                    let t = final(self).tasks@[n as int];
                    &&& final(self).tasks@.len() == n + 1
                    &&& final(self).tasks@.subrange(0, n as int) == old(self).tasks@
                    &&& is_public_view(p, t)
                    &&& t.id@ == "task-"@ + decimal((n + 1) as nat)
                    &&& t.customer_id == input.customer_id
                    &&& t.title@ == trimmed(input.title@)
                    &&& t.description@ == trimmed(input.description@)
                    &&& t.pickup_area@ == trimmed(input.pickup_area@)
                    &&& t.dropoff_area@ == trimmed(input.dropoff_area@)
                    &&& t.pickup_address@ == trimmed(input.pickup_address@)
                    &&& t.dropoff_address@ == trimmed(input.dropoff_address@)
                    &&& t.category == input.category
                    &&& t.state == RunnerTaskState::Quoted
                    &&& t.runner_payout_cents == runner_payout(task_quote_input(input))
                    &&& t.service_fee_cents == runner_service_fee(t.runner_payout_cents as int)
                    &&& t.total_cents == t.runner_payout_cents + t.service_fee_cents
                    &&& t.assigned_runner_id is None
                    &&& t.completion_code@ == decimal((410_000 + n) as nat)
                    &&& !t.payout_released
                },
            },
    {
        if !input.safety_confirmed || is_blank(&input.title) || is_blank(&input.description)
            || is_blank(&input.pickup_area) || is_blank(&input.dropoff_area) || is_blank(
            &input.pickup_address,
        ) || is_blank(&input.dropoff_address) {
            return Err(error(422, "invalid_task", "Task details and the safety confirmation are required"));
        }
        let quote = match quote_runner_task(
            RunnerQuoteInput {
                category: input.category,
                distance_tenths_mile: input.distance_tenths_mile,
                estimated_minutes: input.estimated_minutes,
                weight: input.weight,
                urgency: input.urgency,
                waiting_minutes: input.waiting_minutes,
            },
        ) {
            Ok(q) => q,
            Err(e) => return Err(runner_error(e)),
        };
        let count = self.tasks.len();
        let mut id = text("task-");
        push_decimal(&mut id, (count + 1) as u64);
        let mut completion_code = String::new();
        push_decimal(&mut completion_code, (410_000 + count) as u64);
        proof {
            assert(Seq::<char>::empty() + decimal((410_000 + count) as nat) =~= decimal(
                (410_000 + count) as nat,
            ));
        }
        let task = RunnerTask {
            id,
            customer_id: input.customer_id,
            title: trimmed_text(&input.title),
            description: trimmed_text(&input.description),
            pickup_area: trimmed_text(&input.pickup_area),
            dropoff_area: trimmed_text(&input.dropoff_area),
            pickup_address: trimmed_text(&input.pickup_address),
            dropoff_address: trimmed_text(&input.dropoff_address),
            category: input.category,
            distance_tenths_mile: input.distance_tenths_mile,
            estimated_minutes: input.estimated_minutes,
            weight: input.weight,
            urgency: input.urgency,
            state: RunnerTaskState::Quoted,
            runner_payout_cents: quote.runner_payout_cents,
            service_fee_cents: quote.service_fee_cents,
            total_cents: quote.total_cents,
            assigned_runner_id: None,
            completion_code,
            payout_released: false,
        };
        let public = PublicTask::from_task(&task);
        self.tasks.push(task);
        assert(self.tasks@.subrange(0, count as int) =~= old(self).tasks@);
        Ok(public)
    }

    /// A runner's earnings record.
    pub fn earnings(&self, runner_id: &str) -> (record: Result<Earnings, DemoApiError>)
        ensures
            match earnings_index(self.earnings@, runner_id@, 0) {
                Some(j) => record == Ok::<Earnings, DemoApiError>(self.earnings@[j]),
                None => record matches Err(e) && is_error(e, 404, "runner_not_found"@),
            },
    {
        match self.find_earnings(runner_id) {
            Some(j) => Ok(self.earnings[j].duplicate()),
            None => Err(error(404, "runner_not_found", "Runner not found")),
        }
    }

    /// Files an application to become a runner; it waits for approval.
    /// Applicants must confirm they are adults, give a name and a service area.
    pub fn apply(&mut self, input: ApplyRequest) -> (result: Result<
        RunnerApplication,
        DemoApiError,
    >)
        requires
            old(self).applications@.len() < usize::MAX,
        ensures
            final(self).tasks == old(self).tasks,
            final(self).earnings == old(self).earnings,
            !input.age_confirmed || trimmed(input.name@).len() == 0
                || input.service_radius_miles == 0 ==> (result matches Err(e) && is_error(
                e,
                422,
                "invalid_application"@,
            ) && final(self).applications == old(self).applications),
            input.age_confirmed && trimmed(input.name@).len() > 0 && input.service_radius_miles
                > 0 ==> (result matches Ok(a) && {
                let n = old(self).applications@.len();
                &&& final(self).applications@ == old(self).applications@.push(a)
                &&& a.id@ == "application-"@ + decimal((n + 1) as nat)
                &&& a.name@ == trimmed(input.name@)
                &&& a.age_confirmed
                &&& a.transport == input.transport
                &&& a.service_radius_miles == input.service_radius_miles
                &&& a.status@ == "pending"@
            }),
    {
        if !input.age_confirmed || is_blank(&input.name) || input.service_radius_miles == 0 {
            return Err(error(422, "invalid_application", "Applicants must confirm age 18+ and provide a service area"));
        }
        let mut id = text("application-");
        push_decimal(&mut id, (self.applications.len() + 1) as u64);
        let application = RunnerApplication {
            id,
            name: trimmed_text(&input.name),
            age_confirmed: true,
            transport: input.transport,
            service_radius_miles: input.service_radius_miles,
            status: text("pending"),
        };
        let copy = application.duplicate();
        self.applications.push(application);
        Ok(copy)
    }

    /// Every application, in the order filed.
    pub fn list_applications(&self) -> (list: Vec<RunnerApplication>)
        ensures
            list@ == self.applications@,
    {
        let mut list: Vec<RunnerApplication> = Vec::new();
        let mut i: usize = 0;
        while i < self.applications.len()
            invariant
                0 <= i <= self.applications@.len(),
                list@ == self.applications@.subrange(0, i as int),
            decreases self.applications@.len() - i,
        {
            list.push(self.applications[i].duplicate());
            i = i + 1;
            assert(list@ =~= self.applications@.subrange(0, i as int));
        }
        assert(list@ =~= self.applications@);
        list
    }

    /// Approves an application.
    pub fn approve_application(&mut self, id: &str) -> (result: Result<
        RunnerApplication,
        DemoApiError,
    >)
        ensures
            final(self).tasks == old(self).tasks,
            final(self).earnings == old(self).earnings,
            match application_index(old(self).applications@, id@, 0) {
                None => result matches Err(e) && is_error(e, 404, "application_not_found"@)
                    && final(self).applications == old(self).applications,
                Some(k) => result matches Ok(a) && {
                    &&& final(self).applications@ == old(self).applications@.update(k, a)
                    &&& a.id == old(self).applications@[k].id
                    &&& a.name == old(self).applications@[k].name
                    &&& a.age_confirmed == old(self).applications@[k].age_confirmed
                    &&& a.transport == old(self).applications@[k].transport
                    &&& a.service_radius_miles == old(self).applications@[k].service_radius_miles
                    &&& a.status@ == "approved"@
                },
            },
    {
        let mut i: usize = 0;
        while i < self.applications.len()
            invariant
                0 <= i <= self.applications@.len(),
                self.applications == old(self).applications,
                self.tasks == old(self).tasks,
                self.earnings == old(self).earnings,
                application_index(old(self).applications@, id@, 0) == application_index(
                    old(self).applications@,
                    id@,
                    i as int,
                ),
            decreases self.applications@.len() - i,
        {
            if text_eq(self.applications[i].id.as_str(), id) {
                let mut application = self.applications[i].duplicate();
                application.status = text("approved");
                let copy = application.duplicate();
                self.applications.set(i, application);
                return Ok(copy);
            }
            i = i + 1;
        }
        Err(error(404, "application_not_found", "Application not found"))
    }
}

/// Whether a task is open for a runner or in a runner's hands.
pub open spec fn is_active(t: RunnerTask) -> bool {
    t.state == RunnerTaskState::Available || t.state == RunnerTaskState::Accepted || t.state
        == RunnerTaskState::PickedUp || t.state == RunnerTaskState::Delivering
}

pub open spec fn count_tasks(tasks: Seq<RunnerTask>, p: spec_fn(RunnerTask) -> bool) -> nat
    decreases tasks.len(),
{
    if tasks.len() == 0 {
        0
    } else {
        count_tasks(tasks.drop_last(), p) + if p(tasks.last()) {
            1nat
        } else {
            0nat
        }
    }
}

pub open spec fn count_applications(apps: Seq<RunnerApplication>, status: Seq<char>) -> nat
    decreases apps.len(),
{
    if apps.len() == 0 {
        0
    } else {
        count_applications(apps.drop_last(), status) + if apps.last().status@ == status {
            1nat
        } else {
            0nat
        }
    }
}

/// The number of tasks in `state`.
pub open spec fn count_in_state(tasks: Seq<RunnerTask>, state: RunnerTaskState) -> nat
    decreases tasks.len(),
{
    if tasks.len() == 0 {
        0
    } else {
        count_in_state(tasks.drop_last(), state) + if tasks.last().state == state {
            1nat
        } else {
            0nat
        }
    }
}

/// The number of active tasks.
pub open spec fn count_active(tasks: Seq<RunnerTask>) -> nat
    decreases tasks.len(),
{
    if tasks.len() == 0 {
        0
    } else {
        count_active(tasks.drop_last()) + if is_active(tasks.last()) {
            1nat
        } else {
            0nat
        }
    }
}

impl RunnerDemoStore {
    /// The marketplace activity counts shown to admins.
    pub fn admin_summary(&self) -> (summary: AdminSummary)
        ensures
            summary.total_tasks == self.tasks@.len(),
            summary.active_tasks == count_active(self.tasks@),
            summary.completed_tasks == count_in_state(self.tasks@, RunnerTaskState::Completed),
            summary.disputed_tasks == count_in_state(self.tasks@, RunnerTaskState::Disputed),
            summary.pending_applications == count_applications(self.applications@, "pending"@),
            summary.approved_runners == count_applications(self.applications@, "approved"@),
            summary.prohibited_tasks_blocked == 3,
    {
        let mut active: usize = 0;
        let mut completed: usize = 0;
        let mut disputed: usize = 0;
        let mut i: usize = 0;
        while i < self.tasks.len()
            invariant
                0 <= i <= self.tasks@.len(),
                active == count_active(self.tasks@.subrange(0, i as int)),
                completed == count_in_state(
                    self.tasks@.subrange(0, i as int),
                    RunnerTaskState::Completed,
                ),
                disputed == count_in_state(
                    self.tasks@.subrange(0, i as int),
                    RunnerTaskState::Disputed,
                ),
                active <= i,
                completed <= i,
                disputed <= i,
            decreases self.tasks@.len() - i,
        {
            let ghost before = self.tasks@.subrange(0, i as int);
            assert(self.tasks@.subrange(0, i + 1).drop_last() =~= before);
            let state = self.tasks[i].state;
            if state == RunnerTaskState::Available || state == RunnerTaskState::Accepted || state
                == RunnerTaskState::PickedUp || state == RunnerTaskState::Delivering {
                active = active + 1;
            }
            if state == RunnerTaskState::Completed {
                completed = completed + 1;
            }
            if state == RunnerTaskState::Disputed {
                disputed = disputed + 1;
            }
            i = i + 1;
        }
        assert(self.tasks@.subrange(0, i as int) =~= self.tasks@);
        let mut pending: usize = 0;
        let mut approved: usize = 0;
        let mut j: usize = 0;
        while j < self.applications.len()
            invariant
                0 <= j <= self.applications@.len(),
                pending == count_applications(self.applications@.subrange(0, j as int), "pending"@),
                approved == count_applications(
                    self.applications@.subrange(0, j as int),
                    "approved"@,
                ),
                pending <= j,
                approved <= j,
            decreases self.applications@.len() - j,
        {
            let ghost before = self.applications@.subrange(0, j as int);
            assert(self.applications@.subrange(0, j + 1).drop_last() =~= before);
            if text_eq(self.applications[j].status.as_str(), "pending") {
                pending = pending + 1;
            }
            if text_eq(self.applications[j].status.as_str(), "approved") {
                approved = approved + 1;
            }
            j = j + 1;
        }
        assert(self.applications@.subrange(0, j as int) =~= self.applications@);
        AdminSummary {
            total_tasks: self.tasks.len(),
            active_tasks: active,
            pending_applications: pending,
            approved_runners: approved,
            completed_tasks: completed,
            disputed_tasks: disputed,
            prohibited_tasks_blocked: 3,
        }
    }
}

/// A payout is released at most once: releasing needs a task whose payout is
/// not released yet, and every action keeps a released payout released.
pub proof fn lemma_payout_released_once(
    tasks: Seq<RunnerTask>,
    id: Seq<char>,
    input: TaskActionRequest,
    t: RunnerTask,
    action: RunnerAction,
    next: RunnerTaskState,
    runner_id: Option<String>,
)
    ensures
        releases_payout(tasks, id, input) ==> !tasks[action_checks(tasks, id, input)->Ok_0.0].payout_released,
        t.payout_released ==> task_after(t, action, next, runner_id).payout_released,
{
}

} // verus!
