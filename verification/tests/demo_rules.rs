use core_api::demo::{DemoOrderBook, QuoteRequest, listing, listings, quote};
use core_api::domain::order_state::{OrderAction, OrderState};
use core_api::domain::quote::FulfillmentMethod;
use core_api::domain::runner::{RunnerTaskState, TaskCategory, Urgency, WeightBand};
use core_api::runner_demo::{
    ApplyRequest, CreateTaskRequest, RunnerDemoStore, TaskActionRequest,
};

fn ps5_slim(units: i64, fulfillment: FulfillmentMethod) -> QuoteRequest {
    QuoteRequest {
        listing_id: "ps5-slim".to_owned(),
        units,
        fulfillment,
    }
}

fn act(action: &str, role: &str, runner_id: Option<&str>, code: Option<&str>) -> TaskActionRequest {
    TaskActionRequest {
        action: action.to_owned(),
        role: role.to_owned(),
        runner_id: runner_id.map(str::to_owned),
        completion_code: code.map(str::to_owned),
    }
}

#[test]
fn demo_catalog_has_images_and_quotes_in_cents() {
    let catalog = listings();
    assert!(catalog.len() >= 12);
    for item in &catalog {
        assert!(item.image_src.starts_with("/images/listings/") && item.image_src.ends_with(".jpg"));
        assert_eq!(item.image_src, format!("/images/listings/{}.jpg", item.id));
        assert!(!item.image_alt.trim().is_empty());
        assert!(["rental", "workspace", "sale"].contains(&item.listing_type));
        assert_eq!(
            item.listing_type == "workspace",
            item.fulfillment == vec![FulfillmentMethod::OnSite]
        );
        assert_eq!(
            item.fulfillment.contains(&FulfillmentMethod::Delivery),
            item.delivery_fee_cents > 0
        );
        assert_eq!(item.state, "MA");
    }
    for (i, a) in catalog.iter().enumerate() {
        for b in &catalog[i + 1..] {
            assert_ne!(a.id, b.id);
        }
    }
    assert!(listing("ps5-slim").is_some());
    assert!(listing("no-such-listing").is_none());
    let breakdown = quote(&ps5_slim(2, FulfillmentMethod::Delivery)).unwrap();
    assert_eq!(breakdown.base_cents, 2_400);
    assert_eq!(breakdown.delivery_fee_cents, 800);
    assert_eq!(breakdown.deposit_cents, 10_000);
    assert_eq!(breakdown.total_cents, 13_344);
    assert_eq!(quote(&ps5_slim(0, FulfillmentMethod::Pickup)).unwrap_err(), 422);
}

#[test]
fn demo_orders_follow_the_order_state_machine() {
    let mut book = DemoOrderBook::new();
    let order = book.create(&ps5_slim(2, FulfillmentMethod::Pickup), "order-1".to_owned()).unwrap();
    assert_eq!(order.state, OrderState::PendingPayment);
    assert_eq!(book.apply_action("order-1", OrderAction::Activate).unwrap_err(), 409);
    assert_eq!(book.apply_action("missing", OrderAction::Cancel).unwrap_err(), 404);
    let paid = book.apply_action("order-1", OrderAction::MarkPaid).unwrap();
    assert_eq!(paid.state, OrderState::Paid);
    book.reset();
    assert!(book.orders.is_empty());
}

#[test]
fn seeded_runner_demo_hides_addresses_and_releases_payout_once() {
    let mut store = RunnerDemoStore::seeded();
    assert!(store.list_tasks().len() >= 4);
    let payout = store.list_tasks()[0].runner_payout_cents;
    let detail = store.task_detail("task-1", None).unwrap();
    assert!(detail.pickup_address.is_none());
    for (action, role, code) in [
        ("accept", "runner", None),
        ("confirm_pickup", "runner", None),
        ("start_delivery", "runner", None),
        ("complete", "customer", Some("482731")),
    ] {
        let request = act(action, role, Some("runner-1"), code);
        assert!(!store.action_cannot_release("task-1", &request));
        assert!(store.task_action("task-1", request).is_ok(), "action {action} failed");
    }
    assert_eq!(
        store.task_detail("task-1", None).unwrap().public.state,
        RunnerTaskState::Completed
    );
    let earnings = store.earnings("runner-1").unwrap();
    assert!(earnings.available_cents > 0);
    assert_eq!(earnings.available_cents, payout);
    assert_eq!(earnings.completed_tasks, 1);
    let again = act("complete", "customer", Some("runner-1"), Some("482731"));
    assert!(!store.action_cannot_release("task-1", &again));
    assert_eq!(store.task_action("task-1", again).unwrap_err().status, 409);
    assert_eq!(store.earnings("runner-1").unwrap().completed_tasks, 1);
    assert_eq!(store.earnings("runner-1").unwrap().available_cents, payout);
}

#[test]
fn runner_demo_applications_and_tasks() {
    let mut store = RunnerDemoStore::seeded();
    let application = store
        .apply(ApplyRequest {
            name: "Taylor Morgan".to_owned(),
            age_confirmed: true,
            transport: "bike".to_owned(),
            service_radius_miles: 8,
        })
        .unwrap();
    assert_eq!(application.status, "pending");
    assert_eq!(store.approve_application(&application.id).unwrap().status, "approved");

    let task = store
        .create_task(CreateTaskRequest {
            customer_id: "customer-1".to_owned(),
            title: "Deliver class materials".to_owned(),
            description: "One sealed folder, no private-residence entry".to_owned(),
            pickup_area: "Babson Park".to_owned(),
            dropoff_area: "Wellesley Square".to_owned(),
            pickup_address: "1 Fictional Campus Road".to_owned(),
            dropoff_address: "2 Demo Square".to_owned(),
            category: TaskCategory::DocumentDelivery,
            distance_tenths_mile: 24,
            estimated_minutes: 28,
            weight: WeightBand::Light,
            urgency: Urgency::SameDay,
            waiting_minutes: 0,
            safety_confirmed: true,
        })
        .unwrap();
    assert_eq!(task.state, RunnerTaskState::Quoted);
    for action in ["fund", "publish"] {
        assert!(store.task_action(&task.id, act(action, "customer", None, None)).is_ok());
    }
    let listed = store.list_tasks();
    let published = listed.iter().find(|item| item.id == task.id).unwrap();
    assert_eq!(published.state, RunnerTaskState::Available);

    let summary = store.admin_summary();
    assert!(summary.total_tasks >= 1);
    assert!(summary.approved_runners >= 1);
    assert_eq!(summary.prohibited_tasks_blocked, 3);
}
