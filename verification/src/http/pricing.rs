//! Saving a listing's pricing: the fulfillment methods must suit the
//! category, and the seller's adjustment must stay within its band.
use vstd::prelude::*;

use crate::domain::pricing::{
    final_price, recommend, recommendation_error, recommendation_outcome, recommended_price,
    PricingCategoryInput, PricingError,
};
use crate::domain::quote::FulfillmentMethod;
use crate::error::{answers, ApiError};
use crate::ports::order_repository::SavePricingProfile;

verus! {

/// A seller's request to price one of their listings.
#[derive(Debug, Clone)]
pub struct SavePricingRequest {
    pub attributes: PricingCategoryInput,
    pub seller_adjustment_cents: i64,
    pub allowed_fulfillment_methods: Vec<FulfillmentMethod>,
}

/// Whether `methods` suit a listing of the category of `attributes`: at least
/// one, none twice, a console never on site and a workspace only on site.
pub open spec fn fulfillment_suits(
    attributes: PricingCategoryInput,
    methods: Seq<FulfillmentMethod>,
) -> bool {
    &&& methods.len() > 0
    &&& methods.no_duplicates()
    &&& match attributes {
        PricingCategoryInput::Ps5(_) => forall|i: int|
            0 <= i < methods.len() ==> methods[i] != FulfillmentMethod::OnSite,
        PricingCategoryInput::Workspace(_) => forall|i: int|
            0 <= i < methods.len() ==> methods[i] == FulfillmentMethod::OnSite,
    }
}

/// `error` is the answer to fulfillment methods that do not suit the category.
pub open spec fn is_invalid_fulfillment(error: ApiError) -> bool {
    answers(
        error,
        422,
        "FULFILLMENT_NOT_ALLOWED"@,
        "Fulfillment is not valid for this pricing category"@,
    )
}

pub fn invalid_fulfillment() -> (error: ApiError)
    ensures
        is_invalid_fulfillment(error),
{
    ApiError::new(422, "FULFILLMENT_NOT_ALLOWED", "Fulfillment is not valid for this pricing category")
}

/// Whether the first `n` methods hold no method twice.
fn distinct_prefix(methods: &Vec<FulfillmentMethod>) -> (distinct: bool)
    ensures
        distinct == methods@.no_duplicates(),
{
    let mut i: usize = 0;
    while i < methods.len()
        invariant
            0 <= i <= methods@.len(),
            forall|a: int, b: int| 0 <= a < b < i ==> methods@[a] != methods@[b],
        decreases methods@.len() - i,
    {
        let mut j: usize = 0;
        while j < i
            invariant
                0 <= j <= i < methods@.len(),
                forall|a: int| 0 <= a < j ==> methods@[a] != methods@[i as int],
            decreases i - j,
        {
            if methods[j] == methods[i] {
                return false;
            }
            j = j + 1;
        }
        i = i + 1;
    }
    true
}

/// Checks that the fulfillment methods suit the listing's category.
pub fn validate_fulfillment(
    attributes: &PricingCategoryInput,
    methods: &Vec<FulfillmentMethod>,
) -> (checked: Result<(), ApiError>)
    ensures
        fulfillment_suits(*attributes, methods@) ==> checked is Ok,
        !fulfillment_suits(*attributes, methods@) ==> (checked matches Err(e)
            && is_invalid_fulfillment(e)),
{
    if methods.len() == 0 || !distinct_prefix(methods) {
        return Err(invalid_fulfillment());
    }
    let on_site_only = match attributes {
        PricingCategoryInput::Ps5(_) => false,
        PricingCategoryInput::Workspace(_) => true,
    };
    let mut i: usize = 0;
    while i < methods.len()
        invariant
            0 <= i <= methods@.len(),
            on_site_only == (*attributes is Workspace),
            forall|j: int|
                0 <= j < i ==> (methods@[j] == FulfillmentMethod::OnSite) == on_site_only,
        decreases methods@.len() - i,
    {
        if (methods[i] == FulfillmentMethod::OnSite) != on_site_only {
            return Err(invalid_fulfillment());
        }
        i = i + 1;
    }
    Ok(())
}

/// The code a pricing failure is answered with.
pub open spec fn pricing_error_code(error: PricingError) -> Seq<char> {
    match error {
        PricingError::AdjustmentOutOfRange => "SELLER_ADJUSTMENT_OUT_OF_RANGE"@,
        _ => "INVALID_PRICING_ATTRIBUTES"@,
    }
}

pub fn map_pricing_error(error: PricingError) -> (answer: ApiError)
    ensures
        answers(answer, 422, pricing_error_code(error), "Pricing input is invalid"@),
{
    let code = match error {
        PricingError::AdjustmentOutOfRange => "SELLER_ADJUSTMENT_OUT_OF_RANGE",
        PricingError::InvalidAttributes | PricingError::NotOperational | PricingError::Overflow => {
            "INVALID_PRICING_ATTRIBUTES"
        },
    };
    ApiError::new(422, code, "Pricing input is invalid")
}

/// The profile to store for `owner_id`'s listing `listing_id`: the methods
/// are checked first, then the attributes are priced, then the adjustment.
pub fn price_listing(listing_id: u128, owner_id: u128, request: SavePricingRequest) -> (profile:
    Result<SavePricingProfile, ApiError>)
    ensures
        ({
            let attributes = request.attributes;
            let adjustment = request.seller_adjustment_cents;
            let adjusted = final_price(recommended_price(attributes) as i64, adjustment);
            if !fulfillment_suits(attributes, request.allowed_fulfillment_methods@) {
                profile matches Err(e) && is_invalid_fulfillment(e)
            } else if recommendation_error(attributes) is Some {
                profile matches Err(e) && answers(
                    e,
                    422,
                    pricing_error_code(recommendation_error(attributes)->0),
                    "Pricing input is invalid"@,
                )
            } else {
                match adjusted {
                    Err(pe) => profile matches Err(e) && answers(
                        e,
                        422,
                        pricing_error_code(pe),
                        "Pricing input is invalid"@,
                    ),
                    Ok(price) => profile matches Ok(p) && {
                        &&& p.listing_id == listing_id
                        &&& p.owner_id == owner_id
                        &&& p.attributes == attributes
                        &&& recommendation_outcome(attributes, Ok(p.recommendation))
                        &&& p.recommendation.recommended_unit_price_cents == recommended_price(
                            attributes,
                        )
                        &&& p.seller_adjustment_cents == adjustment
                        &&& p.final_unit_price_cents == price
                        &&& p.allowed_fulfillment_methods@
                            == request.allowed_fulfillment_methods@
                    },
                }
            }
        }),
{
    validate_fulfillment(&request.attributes, &request.allowed_fulfillment_methods)?;
    let recommendation = match recommend(request.attributes) {
        Ok(r) => r,
        Err(e) => return Err(map_pricing_error(e)),
    };
    let final_unit_price_cents = match recommendation.final_price_cents(
        request.seller_adjustment_cents,
    ) {
        Ok(p) => p,
        Err(e) => return Err(map_pricing_error(e)),
    };
    Ok(
        SavePricingProfile {
            listing_id,
            owner_id,
            attributes: request.attributes,
            recommendation,
            seller_adjustment_cents: request.seller_adjustment_cents,
            final_unit_price_cents,
            allowed_fulfillment_methods: request.allowed_fulfillment_methods,
        },
    )
}

} // verus!
