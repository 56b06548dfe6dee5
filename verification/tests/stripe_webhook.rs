use core_api::adapters::stripe::{StripeEvent, WebhookError, test_signature_header, verify_webhook};
use core_api::ids::{parse_uuid, uuid_string};

/// Reads a webhook payload into an event, as the service's JSON reader does.
fn decode(payload: &[u8]) -> Option<StripeEvent> {
    let value: serde_json::Value = serde_json::from_slice(payload).ok()?;
    let object = value.get("data").and_then(|data| data.get("object"));
    let field = |name: &str| object.and_then(|item| item.get(name));
    Some(StripeEvent {
        id: value.get("id")?.as_str()?.to_owned(),
        event_type: value.get("type")?.as_str()?.to_owned(),
        order_id: field("metadata")
            .and_then(|metadata| metadata.get("order_id"))
            .and_then(|id| id.as_str())
            .and_then(parse_uuid),
        payment_status: field("payment_status")
            .and_then(|status| status.as_str())
            .map(str::to_owned),
        amount_total_cents: field("amount_total").and_then(|amount| amount.as_i64()),
        currency: field("currency")
            .and_then(|currency| currency.as_str())
            .map(str::to_owned),
    })
}

#[test]
fn valid_signature_is_accepted() {
    let payload = br#"{"id":"evt_test","type":"payment_intent.succeeded"}"#;
    let header = test_signature_header(1_700_000_000, payload, b"whsec_test");
    let event =
        verify_webhook(payload, &header, b"whsec_test", 1_700_000_100, decode(payload)).unwrap();
    assert_eq!(event.id, "evt_test");
    assert_eq!(event.event_type, "payment_intent.succeeded");
}

#[test]
fn old_or_bad_signatures_are_rejected() {
    let payload = br#"{"id":"evt_test","type":"payment_intent.succeeded"}"#;
    let header = test_signature_header(1_700_000_000, payload, b"whsec_test");
    assert_eq!(
        verify_webhook(payload, &header, b"whsec_test", 1_700_001_000, decode(payload)),
        Err(WebhookError::Expired)
    );
    assert_eq!(
        verify_webhook(payload, &header, b"wrong_secret", 1_700_000_100, decode(payload)),
        Err(WebhookError::InvalidSignature)
    );
    assert_eq!(
        verify_webhook(payload, "bad", b"whsec_test", 1_700_000_100, decode(payload)),
        Err(WebhookError::MalformedHeader)
    );
}

#[test]
fn paid_checkout_extracts_verified_payment_fields() {
    let payload = br#"{"id":"evt_order","type":"checkout.session.completed","data":{"object":{"payment_status":"paid","amount_total":16800,"currency":"usd","metadata":{"order_id":"cccccccc-cccc-cccc-cccc-cccccccccccc"}}}}"#;
    let header = test_signature_header(1_700_000_000, payload, b"whsec_test");
    let event =
        verify_webhook(payload, &header, b"whsec_test", 1_700_000_100, decode(payload)).unwrap();
    let payment = event.verified_payment().unwrap();
    assert_eq!(
        uuid_string(payment.order_id),
        "cccccccc-cccc-cccc-cccc-cccccccccccc"
    );
    assert_eq!(payment.event_id, "evt_order");
    assert_eq!(payment.amount_total_cents, 16_800);
    assert_eq!(payment.currency, "usd");
}

#[test]
fn unrelated_or_unpaid_checkout_is_not_actionable() {
    for payload in [
        br#"{"id":"evt_other","type":"customer.created"}"#.as_slice(),
        br#"{"id":"evt_unpaid","type":"checkout.session.completed","data":{"object":{"payment_status":"unpaid","amount_total":16800,"currency":"usd","metadata":{"order_id":"cccccccc-cccc-cccc-cccc-cccccccccccc"}}}}"#.as_slice(),
    ] {
        let header = test_signature_header(1_700_000_000, payload, b"whsec_test");
        let event =
            verify_webhook(payload, &header, b"whsec_test", 1_700_000_100, decode(payload))
                .unwrap();
        assert!(event.verified_payment().is_none());
    }
}

#[test]
fn unreadable_payload_with_valid_signature_is_rejected() {
    let payload = b"not json";
    let header = test_signature_header(1_700_000_000, payload, b"whsec_test");
    assert_eq!(
        verify_webhook(payload, &header, b"whsec_test", 1_700_000_100, decode(payload)),
        Err(WebhookError::InvalidPayload)
    );
}

#[test]
fn signature_header_is_hmac_sha256_of_timestamp_dot_payload() {
    assert_eq!(
        test_signature_header(1_700_000_000, b"{}", b"whsec_test"),
        "t=1700000000,v1=35495024f4ef3f94e5a93e22221544c4b75e9a42300cd965ab81cb85cd994e91"
    );
    assert_eq!(
        test_signature_header(-5, b"what do ya want for nothing?", b"Jefe"),
        "t=-5,v1=abea8829e8a099b1b86958201611cfca01c88c8dae4d06819629453fe580c6b5"
    );
}

#[test]
fn signatures_within_five_minutes_either_way_verify() {
    let payload = br#"{"id":"evt_edge","type":"customer.created"}"#;
    let header = test_signature_header(1_700_000_000, payload, b"whsec_test");
    for now in [1_699_999_700, 1_700_000_000, 1_700_000_300] {
        assert!(verify_webhook(payload, &header, b"whsec_test", now, decode(payload)).is_ok());
    }
    for now in [1_699_999_699, 1_700_000_301] {
        assert_eq!(
            verify_webhook(payload, &header, b"whsec_test", now, decode(payload)),
            Err(WebhookError::Expired)
        );
    }
}
