use core_api::cors::allowed_methods;

#[test]
fn production_cors_allows_pricing_updates() {
    assert_eq!(
        allowed_methods(),
        vec!["GET", "POST", "PUT"],
        "production CORS must allow PUT requests used by /v1/listings/:id/pricing"
    );
}
