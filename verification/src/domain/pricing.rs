//! Versioned price recommendations for PS5 rentals and workspaces, and the
//! seller's bounded adjustment of them. All amounts are integer U.S. cents.
use vstd::prelude::*;

use crate::text::{decimal, push_decimal, push_text, text, text_eq};

verus! {

/// The basis-point scale: 10 000 basis points make 100%.
pub const BASIS_POINTS: i64 = 10_000;

/// A seller may move the recommended unit price by at most this many cents either way.
pub const MAX_SELLER_ADJUSTMENT_CENTS: i64 = 500;

/// How a listing is billed: per started half hour or per started day.
#[derive(Debug, Clone, Copy, PartialEq, Eq, Structural)]
pub enum BillingUnit {
    ThirtyMinutes,
    Day,
}

/// The stored name of a billing unit.
pub open spec fn billing_unit_name(unit: BillingUnit) -> Seq<char> {
    match unit {
        BillingUnit::ThirtyMinutes => "thirty_minutes"@,
        BillingUnit::Day => "day"@,
    }
}

impl BillingUnit {
    pub fn as_str(self) -> (name: &'static str)
        ensures
            name@ == billing_unit_name(self),
    {
        match self {
            BillingUnit::ThirtyMinutes => "thirty_minutes",
            BillingUnit::Day => "day",
        }
    }

    /// The billing unit with the stored name `value`; any other name is
    /// invalid pricing data.
    pub fn try_from_name(value: &str) -> (unit: Result<BillingUnit, PricingError>)
        ensures
            match unit {
                Ok(u) => billing_unit_name(u) == value@,
                Err(e) => e == PricingError::InvalidAttributes
                    && value@ != billing_unit_name(BillingUnit::ThirtyMinutes)
                    && value@ != billing_unit_name(BillingUnit::Day),
            },
    {
        if text_eq(value, "thirty_minutes") {
            Ok(BillingUnit::ThirtyMinutes)
        } else if text_eq(value, "day") {
            Ok(BillingUnit::Day)
        } else {
            Err(PricingError::InvalidAttributes)
        }
    }
}

#[derive(Debug, Clone, Copy, PartialEq, Eq, Structural)]
pub enum Ps5Model {
    Original,
    Slim,
    Pro,
}

#[derive(Debug, Clone, Copy, PartialEq, Eq, Structural)]
pub enum Condition {
    LikeNew,
    Good,
    Fair,
    Worn,
}

#[derive(Debug, Clone, Copy, PartialEq, Eq, Structural)]
pub enum LocationTier {
    Residential,
    Suburban,
    Urban,
    Premium,
}

/// What a seller states about a PS5 offered for rent.
#[derive(Debug, Clone, Copy, PartialEq, Eq, Structural)]
pub struct Ps5Input {
    pub model: Ps5Model,
    pub age_months: i64,
    pub condition: Condition,
    pub cleanliness: i64,
    pub fully_operational: bool,
    pub missing_nonessential_features: i64,
    pub controller_count: i64,
    pub billing_unit: BillingUnit,
}

/// What an owner states about a workspace offered for on-site use.
#[derive(Debug, Clone, Copy, PartialEq, Eq, Structural)]
pub struct WorkspaceInput {
    pub square_feet: i64,
    pub location_tier: LocationTier,
    pub cleanliness: i64,
    pub equipment_score: i64,
    pub amenity_count: i64,
    pub billing_unit: BillingUnit,
}

#[derive(Debug, Clone, Copy, PartialEq, Eq, Structural)]
pub enum PricingCategoryInput {
    Ps5(Ps5Input),
    Workspace(WorkspaceInput),
}

/// An explainable recommended unit price with the band the seller may choose from.
#[derive(Debug, Clone, PartialEq, Eq)]
pub struct Recommendation {
    pub recommended_unit_price_cents: i64,
    pub minimum_allowed_cents: i64,
    pub maximum_allowed_cents: i64,
    pub billing_unit: BillingUnit,
    pub ruleset_version: String,
    pub reason_codes: Vec<String>,
}

#[derive(Debug, Clone, Copy, PartialEq, Eq, Structural)]
pub enum PricingError {
    InvalidAttributes,
    NotOperational,
    AdjustmentOutOfRange,
    Overflow,
}

/// The unit price a seller ends up with after adjusting the recommendation:
/// `Err(AdjustmentOutOfRange)` for an adjustment beyond 500 cents either way,
/// `Err(Overflow)` where the sum is negative or leaves the `i64` range.
pub open spec fn final_price(recommended: i64, adjustment: i64) -> Result<i64, PricingError> {
    if adjustment < -MAX_SELLER_ADJUSTMENT_CENTS || adjustment > MAX_SELLER_ADJUSTMENT_CENTS {
        Err(PricingError::AdjustmentOutOfRange)
    } else if recommended + adjustment < 0 || recommended + adjustment > i64::MAX {
        Err(PricingError::Overflow)
    } else {
        Ok((recommended + adjustment) as i64)
    }
}

impl Recommendation {
    /// The reason codes as sequences of characters.
    pub open spec fn codes(&self) -> Seq<Seq<char>> {
        self.reason_codes@.map_values(|code: String| code@)
    }

    pub fn final_price_cents(&self, seller_adjustment_cents: i64) -> (price: Result<i64, PricingError>)
        ensures
            price == final_price(self.recommended_unit_price_cents, seller_adjustment_cents),
    {
        if seller_adjustment_cents < -MAX_SELLER_ADJUSTMENT_CENTS
            || seller_adjustment_cents > MAX_SELLER_ADJUSTMENT_CENTS {
            return Err(PricingError::AdjustmentOutOfRange);
        }
        match self.recommended_unit_price_cents.checked_add(seller_adjustment_cents) {
            Some(value) => if value >= 0 {
                Ok(value)
            } else {
                Err(PricingError::Overflow)
            },
            None => Err(PricingError::Overflow),
        }
    }
}

// ---------------------------------------------------------------------------
// The rules, stated over integers.

pub open spec fn clamp(value: int, low: int, high: int) -> int {
    if value < low {
        low
    } else if value > high {
        high
    } else {
        value
    }
}

pub open spec fn min_int(a: int, b: int) -> int {
    if a <= b { a } else { b }
}

/// Rounds a non-negative amount to the nearest multiple of 50 cents, halves up.
pub open spec fn rounded_to_50(cents: int) -> int {
    ((cents + 25) / 50) * 50
}

/// Scales an amount by a multiplier in basis points, rounding toward zero.
pub open spec fn scaled_by_basis_points(cents: int, multiplier: int) -> int {
    (cents * multiplier) / (BASIS_POINTS as int)
}

/// The basis-point adjustment for a cleanliness score of 1 to 5.
pub open spec fn cleanliness_bps(cleanliness: int) -> int {
    if cleanliness == 1 {
        -1_000
    } else if cleanliness == 2 {
        -500
    } else if cleanliness == 3 {
        0
    } else if cleanliness == 4 {
        300
    } else {
        500
    }
}

pub open spec fn ps5_base_cents(model: Ps5Model, unit: BillingUnit) -> int {
    match (model, unit) {
        (Ps5Model::Original, BillingUnit::ThirtyMinutes) => 500,
        (Ps5Model::Original, BillingUnit::Day) => 2_500,
        (Ps5Model::Slim, BillingUnit::ThirtyMinutes) => 600,
        (Ps5Model::Slim, BillingUnit::Day) => 3_000,
        (Ps5Model::Pro, BillingUnit::ThirtyMinutes) => 800,
        (Ps5Model::Pro, BillingUnit::Day) => 4_000,
    }
}

pub open spec fn condition_bps(condition: Condition) -> int {
    match condition {
        Condition::LikeNew => 1_000,
        Condition::Good => 0,
        Condition::Fair => -1_500,
        Condition::Worn => -3_000,
    }
}

/// The attribute ranges a PS5 listing must lie in.
pub open spec fn ps5_attributes_valid(input: Ps5Input) -> bool {
    &&& 0 <= input.age_months <= 120
    &&& 1 <= input.cleanliness <= 5
    &&& 0 <= input.missing_nonessential_features <= 3
    &&& 1 <= input.controller_count <= 4
}

/// The PS5 multiplier in basis points: age (500 per full year, at most 2 000),
/// condition, cleanliness and missing features (1 500 each, at most 4 500),
/// clamped to 4 000..=13 000.
pub open spec fn ps5_multiplier(input: Ps5Input) -> int {
    clamp(
        BASIS_POINTS - min_int((input.age_months / 12) * 500, 2_000) + condition_bps(input.condition)
            + cleanliness_bps(input.cleanliness as int) - min_int(
            input.missing_nonessential_features * 1_500,
            4_500,
        ),
        4_000,
        13_000,
    )
}

/// Controllers beyond the first, at most two of them counted.
pub open spec fn extra_controllers(input: Ps5Input) -> int {
    clamp(input.controller_count - 1, 0, 2)
}

pub open spec fn controller_unit_cents(unit: BillingUnit) -> int {
    match unit {
        BillingUnit::ThirtyMinutes => 100,
        BillingUnit::Day => 500,
    }
}

/// The recommended unit price of a valid PS5 listing.
pub open spec fn ps5_unit_price(input: Ps5Input) -> int {
    rounded_to_50(
        scaled_by_basis_points(ps5_base_cents(input.model, input.billing_unit), ps5_multiplier(input))
            + extra_controllers(input) * controller_unit_cents(input.billing_unit),
    )
}

pub open spec fn model_code(model: Ps5Model) -> Seq<char> {
    match model {
        Ps5Model::Original => "MODEL_ORIGINAL"@,
        Ps5Model::Slim => "MODEL_SLIM"@,
        Ps5Model::Pro => "MODEL_PRO"@,
    }
}

pub open spec fn condition_code(condition: Condition) -> Seq<char> {
    match condition {
        Condition::LikeNew => "CONDITION_LIKE_NEW"@,
        Condition::Good => "CONDITION_GOOD"@,
        Condition::Fair => "CONDITION_FAIR"@,
        Condition::Worn => "CONDITION_WORN"@,
    }
}

/// The reason codes that explain a PS5 recommendation, in order.
pub open spec fn ps5_reasons(input: Ps5Input) -> Seq<Seq<char>> {
    let always = seq![
        model_code(input.model),
        "AGE_"@ + decimal(input.age_months as nat) + "_MONTHS"@,
        condition_code(input.condition),
        "CLEANLINESS_"@ + decimal(input.cleanliness as nat),
    ];
    let with_missing = if input.missing_nonessential_features > 0 {
        always.push("MISSING_NONESSENTIAL_FEATURE"@)
    } else {
        always
    };
    if extra_controllers(input) > 0 {
        with_missing.push("EXTRA_CONTROLLER"@)
    } else {
        with_missing
    }
}

/// The attribute ranges a workspace listing must lie in.
pub open spec fn workspace_attributes_valid(input: WorkspaceInput) -> bool {
    &&& 50 <= input.square_feet <= 20_000
    &&& 1 <= input.cleanliness <= 5
    &&& 0 <= input.equipment_score <= 5
    &&& 0 <= input.amenity_count <= 10
}

pub open spec fn location_bps(tier: LocationTier) -> int {
    match tier {
        LocationTier::Residential => -1_000,
        LocationTier::Suburban => 0,
        LocationTier::Urban => 1_500,
        LocationTier::Premium => 2_500,
    }
}

/// The workspace base: 2 cents per square foot plus 300 per half hour, twelve
/// half hours per day.
pub open spec fn workspace_base_cents(input: WorkspaceInput) -> int {
    let half_hour = input.square_feet * 2 + 300;
    match input.billing_unit {
        BillingUnit::ThirtyMinutes => half_hour,
        BillingUnit::Day => half_hour * 12,
    }
}

/// The workspace multiplier in basis points: location, cleanliness, equipment
/// (300 per point, at most 1 500) and amenities (200 each, at most 1 000),
/// clamped to 5 000..=15 000.
pub open spec fn workspace_multiplier(input: WorkspaceInput) -> int {
    clamp(
        BASIS_POINTS + location_bps(input.location_tier) + cleanliness_bps(input.cleanliness as int)
            + min_int(input.equipment_score * 300, 1_500) + min_int(input.amenity_count * 200, 1_000),
        5_000,
        15_000,
    )
}

/// The recommended unit price of a valid workspace listing.
pub open spec fn workspace_unit_price(input: WorkspaceInput) -> int {
    rounded_to_50(scaled_by_basis_points(workspace_base_cents(input), workspace_multiplier(input)))
}

pub open spec fn location_code(tier: LocationTier) -> Seq<char> {
    match tier {
        LocationTier::Residential => "LOCATION_RESIDENTIAL"@,
        LocationTier::Suburban => "LOCATION_SUBURBAN"@,
        LocationTier::Urban => "LOCATION_URBAN"@,
        LocationTier::Premium => "LOCATION_PREMIUM"@,
    }
}

/// The reason codes that explain a workspace recommendation, in order.
pub open spec fn workspace_reasons(input: WorkspaceInput) -> Seq<Seq<char>> {
    seq![
        "SIZE_"@ + decimal(input.square_feet as nat) + "_SQFT"@,
        location_code(input.location_tier),
        "CLEANLINESS_"@ + decimal(input.cleanliness as nat),
        "EQUIPMENT_SCORE_"@ + decimal(input.equipment_score as nat),
        "AMENITIES_"@ + decimal(input.amenity_count as nat),
    ]
}

/// `r` is the recommendation of `price` per `unit` under the current rules,
/// explained by `reasons`.
pub open spec fn is_recommendation(
    r: Recommendation,
    price: int,
    unit: BillingUnit,
    reasons: Seq<Seq<char>>,
) -> bool {
    &&& r.recommended_unit_price_cents == price
    &&& r.minimum_allowed_cents == price - MAX_SELLER_ADJUSTMENT_CENTS
    &&& r.maximum_allowed_cents == price + MAX_SELLER_ADJUSTMENT_CENTS
    &&& r.billing_unit == unit
    &&& r.ruleset_version@ == "rules-v1"@
    &&& r.codes() == reasons
}

/// What the rules give for a PS5 listing: `NotOperational` comes first, then
/// `InvalidAttributes`; otherwise the recommendation.
pub open spec fn ps5_outcome(input: Ps5Input, result: Result<Recommendation, PricingError>) -> bool {
    if !input.fully_operational {
        result == Err::<Recommendation, PricingError>(PricingError::NotOperational)
    } else if !ps5_attributes_valid(input) {
        result == Err::<Recommendation, PricingError>(PricingError::InvalidAttributes)
    } else {
        result matches Ok(r) && is_recommendation(
            r,
            ps5_unit_price(input),
            input.billing_unit,
            ps5_reasons(input),
        )
    }
}

/// What the rules give for a workspace listing.
pub open spec fn workspace_outcome(
    input: WorkspaceInput,
    result: Result<Recommendation, PricingError>,
) -> bool {
    if !workspace_attributes_valid(input) {
        result == Err::<Recommendation, PricingError>(PricingError::InvalidAttributes)
    } else {
        result matches Ok(r) && is_recommendation(
            r,
            workspace_unit_price(input),
            input.billing_unit,
            workspace_reasons(input),
        )
    }
}

pub open spec fn recommendation_outcome(
    input: PricingCategoryInput,
    result: Result<Recommendation, PricingError>,
) -> bool {
    match input {
        PricingCategoryInput::Ps5(i) => ps5_outcome(i, result),
        PricingCategoryInput::Workspace(i) => workspace_outcome(i, result),
    }
}

/// The error the rules give for `input`, if they give one.
pub open spec fn recommendation_error(input: PricingCategoryInput) -> Option<PricingError> {
    match input {
        PricingCategoryInput::Ps5(i) => if !i.fully_operational {
            Some(PricingError::NotOperational)
        } else if !ps5_attributes_valid(i) {
            Some(PricingError::InvalidAttributes)
        } else {
            None
        },
        PricingCategoryInput::Workspace(i) => if !workspace_attributes_valid(i) {
            Some(PricingError::InvalidAttributes)
        } else {
            None
        },
    }
}

/// The unit price the rules recommend for `input`, where they give one.
pub open spec fn recommended_price(input: PricingCategoryInput) -> int {
    match input {
        PricingCategoryInput::Ps5(i) => ps5_unit_price(i),
        PricingCategoryInput::Workspace(i) => workspace_unit_price(i),
    }
}

/// Recommends a unit price for a listing under the `rules-v1` ruleset.
pub fn recommend(input: PricingCategoryInput) -> (result: Result<Recommendation, PricingError>)
    ensures
        recommendation_outcome(input, result),
        result matches Ok(r) ==> r.recommended_unit_price_cents >= 0
            && r.recommended_unit_price_cents % 50 == 0,
{
    match input {
        PricingCategoryInput::Ps5(input) => recommend_ps5(input),
        PricingCategoryInput::Workspace(input) => recommend_workspace(input),
    }
}

fn code(s: &str) -> (r: String)
    ensures
        r@ == s@,
{
    text(s)
}

fn code_with_number(prefix: &str, n: i64, suffix: &str) -> (r: String)
    requires
        n >= 0,
    ensures
        r@ == prefix@ + decimal(n as nat) + suffix@,
{
    let mut r = text(prefix);
    push_decimal(&mut r, n as u64);
    push_text(&mut r, suffix);
    r
}

fn recommend_ps5(input: Ps5Input) -> (result: Result<Recommendation, PricingError>)
    ensures
        ps5_outcome(input, result),
        result matches Ok(r) ==> r.recommended_unit_price_cents >= 0
            && r.recommended_unit_price_cents % 50 == 0,
{
    if !input.fully_operational {
        return Err(PricingError::NotOperational);
    }
    if !(0 <= input.age_months && input.age_months <= 120) || !(1 <= input.cleanliness
        && input.cleanliness <= 5) || !(0 <= input.missing_nonessential_features
        && input.missing_nonessential_features <= 3) || !(1 <= input.controller_count
        && input.controller_count <= 4) {
        return Err(PricingError::InvalidAttributes);
    }
    let price = ps5_price(input)?;
    let reasons = ps5_reason_codes(input);
    Ok(recommendation(price, input.billing_unit, reasons))
}

/// The recommended unit price of a PS5 listing whose attributes are in range.
fn ps5_price(input: Ps5Input) -> (price: Result<i64, PricingError>)
    requires
        input.fully_operational,
        ps5_attributes_valid(input),
    ensures
        price matches Ok(p) && p == ps5_unit_price(input) && 0 <= p <= 100_000 && p % 50 == 0,
{
    let base_cents = ps5_base(input.model, input.billing_unit);
    let age_years: i64 = input.age_months / 12;
    let age_penalty: i64 = if age_years * 500 < 2_000 {
        age_years * 500
    } else {
        2_000
    };
    let condition_adjustment = condition_adjustment(input.condition);
    let missing_penalty: i64 = if input.missing_nonessential_features * 1_500 < 4_500 {
        input.missing_nonessential_features * 1_500
    } else {
        4_500
    };
    let cleanliness = cleanliness_adjustment(input.cleanliness)?;
    let raw: i64 = BASIS_POINTS - age_penalty + condition_adjustment + cleanliness - missing_penalty;
    let multiplier: i64 = if raw < 4_000 {
        4_000
    } else if raw > 13_000 {
        13_000
    } else {
        raw
    };
    assert(multiplier == ps5_multiplier(input));
    assert(base_cents * multiplier <= 4_000 * 13_000) by (nonlinear_arith)
        requires
            0 <= base_cents <= 4_000,
            0 <= multiplier <= 13_000,
    ;
    let scaled = apply_basis_points(base_cents, multiplier)?;
    assert(scaled <= 5_200) by (nonlinear_arith)
        requires
            scaled == (base_cents * multiplier) / 10_000,
            0 <= base_cents * multiplier <= 52_000_000,
    ;
    let extra: i64 = if input.controller_count - 1 < 0 {
        0
    } else if input.controller_count - 1 > 2 {
        2
    } else {
        input.controller_count - 1
    };
    let per_controller = controller_unit(input.billing_unit);
    let controller_cents = match extra.checked_mul(per_controller) {
        Some(value) => value,
        None => return Err(PricingError::Overflow),
    };
    let with_controllers = match scaled.checked_add(controller_cents) {
        Some(value) => value,
        None => return Err(PricingError::Overflow),
    };
    assert(scaled == scaled_by_basis_points(ps5_base_cents(input.model, input.billing_unit), ps5_multiplier(input)));
    assert(extra == extra_controllers(input));
    assert(with_controllers == scaled_by_basis_points(ps5_base_cents(input.model, input.billing_unit), ps5_multiplier(input))
        + extra_controllers(input) * controller_unit_cents(input.billing_unit));
    let rounded = round_to_50(with_controllers);
    assert(rounded_to_50(with_controllers as int) <= 100_000) by (nonlinear_arith)
        requires
            0 <= with_controllers <= 6_200,
    ;
    proof { lemma_rounded_to_50_is_multiple(with_controllers as int); }
    rounded
}

fn ps5_base(model: Ps5Model, unit: BillingUnit) -> (cents: i64)
    ensures
        cents == ps5_base_cents(model, unit),
        0 <= cents <= 4_000,
{
    match (model, unit) {
        (Ps5Model::Original, BillingUnit::ThirtyMinutes) => 500,
        (Ps5Model::Original, BillingUnit::Day) => 2_500,
        (Ps5Model::Slim, BillingUnit::ThirtyMinutes) => 600,
        (Ps5Model::Slim, BillingUnit::Day) => 3_000,
        (Ps5Model::Pro, BillingUnit::ThirtyMinutes) => 800,
        (Ps5Model::Pro, BillingUnit::Day) => 4_000,
    }
}

fn condition_adjustment(condition: Condition) -> (bps: i64)
    ensures
        bps == condition_bps(condition),
        -3_000 <= bps <= 1_000,
{
    match condition {
        Condition::LikeNew => 1_000,
        Condition::Good => 0,
        Condition::Fair => -1_500,
        Condition::Worn => -3_000,
    }
}

fn controller_unit(unit: BillingUnit) -> (cents: i64)
    ensures
        cents == controller_unit_cents(unit),
        0 <= cents <= 500,
{
    match unit {
        BillingUnit::ThirtyMinutes => 100,
        BillingUnit::Day => 500,
    }
}

/// The reason codes of a PS5 listing whose attributes are in range.
fn ps5_reason_codes(input: Ps5Input) -> (reasons: Vec<String>)
    requires
        ps5_attributes_valid(input),
    ensures
        reasons@.map_values(|c: String| c@) == ps5_reasons(input),
{
    let extra: bool = input.controller_count > 1;
    let mut reasons: Vec<String> = Vec::new();
    reasons.push(
        match input.model {
            Ps5Model::Original => code("MODEL_ORIGINAL"),
            Ps5Model::Slim => code("MODEL_SLIM"),
            Ps5Model::Pro => code("MODEL_PRO"),
        },
    );
    reasons.push(code_with_number("AGE_", input.age_months, "_MONTHS"));
    reasons.push(
        match input.condition {
            Condition::LikeNew => code("CONDITION_LIKE_NEW"),
            Condition::Good => code("CONDITION_GOOD"),
            Condition::Fair => code("CONDITION_FAIR"),
            Condition::Worn => code("CONDITION_WORN"),
        },
    );
    reasons.push(code_with_number("CLEANLINESS_", input.cleanliness, ""));
    if input.missing_nonessential_features > 0 {
        reasons.push(code("MISSING_NONESSENTIAL_FEATURE"));
    }
    if extra {
        reasons.push(code("EXTRA_CONTROLLER"));
    }
    proof {
        assert(""@ =~= Seq::<char>::empty()) by {
            reveal_strlit("");
        }
        assert("CLEANLINESS_"@ + decimal(input.cleanliness as nat) + ""@ =~= "CLEANLINESS_"@
            + decimal(input.cleanliness as nat));
        assert(reasons@.map_values(|c: String| c@) =~= ps5_reasons(input));
    }
    reasons
}

fn recommend_workspace(input: WorkspaceInput) -> (result: Result<Recommendation, PricingError>)
    ensures
        workspace_outcome(input, result),
        result matches Ok(r) ==> r.recommended_unit_price_cents >= 0
            && r.recommended_unit_price_cents % 50 == 0,
{
    if !(50 <= input.square_feet && input.square_feet <= 20_000) || !(1 <= input.cleanliness
        && input.cleanliness <= 5) || !(0 <= input.equipment_score && input.equipment_score <= 5)
        || !(0 <= input.amenity_count && input.amenity_count <= 10) {
        return Err(PricingError::InvalidAttributes);
    }
    let price = workspace_price(input)?;
    let reasons = workspace_reason_codes(input);
    Ok(recommendation(price, input.billing_unit, reasons))
}

/// The recommended unit price of a workspace listing whose attributes are in range.
fn workspace_price(input: WorkspaceInput) -> (price: Result<i64, PricingError>)
    requires
        workspace_attributes_valid(input),
    ensures
        price matches Ok(p) && p == workspace_unit_price(input) && 0 <= p <= 1_000_000 && p % 50
            == 0,
{
    let doubled = match input.square_feet.checked_mul(2) {
        Some(value) => value,
        None => return Err(PricingError::Overflow),
    };
    let half_hour_base = match doubled.checked_add(300) {
        Some(value) => value,
        None => return Err(PricingError::Overflow),
    };
    let base_cents = match input.billing_unit {
        BillingUnit::ThirtyMinutes => half_hour_base,
        BillingUnit::Day => match half_hour_base.checked_mul(12) {
            Some(value) => value,
            None => return Err(PricingError::Overflow),
        },
    };
    assert(base_cents == workspace_base_cents(input));
    let location_adjustment: i64 = match input.location_tier {
        LocationTier::Residential => -1_000,
        LocationTier::Suburban => 0,
        LocationTier::Urban => 1_500,
        LocationTier::Premium => 2_500,
    };
    let equipment_adjustment: i64 = if input.equipment_score * 300 < 1_500 {
        input.equipment_score * 300
    } else {
        1_500
    };
    let amenity_adjustment: i64 = if input.amenity_count * 200 < 1_000 {
        input.amenity_count * 200
    } else {
        1_000
    };
    let cleanliness = cleanliness_adjustment(input.cleanliness)?;
    let raw: i64 = BASIS_POINTS + location_adjustment + cleanliness + equipment_adjustment
        + amenity_adjustment;
    let multiplier: i64 = if raw < 5_000 {
        5_000
    } else if raw > 15_000 {
        15_000
    } else {
        raw
    };
    assert(multiplier == workspace_multiplier(input));
    assert(base_cents * multiplier <= 483_600 * 15_000) by (nonlinear_arith)
        requires
            0 <= base_cents <= 483_600,
            0 <= multiplier <= 15_000,
    ;
    let scaled = apply_basis_points(base_cents, multiplier)?;
    assert(scaled <= 725_400) by (nonlinear_arith)
        requires
            scaled == (base_cents * multiplier) / 10_000,
            0 <= base_cents * multiplier <= 7_254_000_000,
    ;
    proof { lemma_rounded_to_50_is_multiple(scaled as int); }
    assert(rounded_to_50(scaled as int) <= 1_000_000) by (nonlinear_arith)
        requires
            0 <= scaled <= 725_400,
    ;
    round_to_50(scaled)
}

/// The reason codes of a workspace listing whose attributes are in range.
fn workspace_reason_codes(input: WorkspaceInput) -> (reasons: Vec<String>)
    requires
        workspace_attributes_valid(input),
    ensures
        reasons@.map_values(|c: String| c@) == workspace_reasons(input),
{
    let mut reasons: Vec<String> = Vec::new();
    reasons.push(code_with_number("SIZE_", input.square_feet, "_SQFT"));
    reasons.push(
        match input.location_tier {
            LocationTier::Residential => code("LOCATION_RESIDENTIAL"),
            LocationTier::Suburban => code("LOCATION_SUBURBAN"),
            LocationTier::Urban => code("LOCATION_URBAN"),
            LocationTier::Premium => code("LOCATION_PREMIUM"),
        },
    );
    reasons.push(code_with_number("CLEANLINESS_", input.cleanliness, ""));
    reasons.push(code_with_number("EQUIPMENT_SCORE_", input.equipment_score, ""));
    reasons.push(code_with_number("AMENITIES_", input.amenity_count, ""));
    proof {
        assert(""@ =~= Seq::<char>::empty()) by {
            reveal_strlit("");
        }
        assert("CLEANLINESS_"@ + decimal(input.cleanliness as nat) + ""@ =~= "CLEANLINESS_"@
            + decimal(input.cleanliness as nat));
        assert("EQUIPMENT_SCORE_"@ + decimal(input.equipment_score as nat) + ""@
            =~= "EQUIPMENT_SCORE_"@ + decimal(input.equipment_score as nat));
        assert("AMENITIES_"@ + decimal(input.amenity_count as nat) + ""@ =~= "AMENITIES_"@
            + decimal(input.amenity_count as nat));
        assert(reasons@.map_values(|c: String| c@) =~= workspace_reasons(input));
    }
    reasons
}

fn recommendation(
    recommended_unit_price_cents: i64,
    billing_unit: BillingUnit,
    reason_codes: Vec<String>,
) -> (r: Recommendation)
    requires
        0 <= recommended_unit_price_cents <= i64::MAX - MAX_SELLER_ADJUSTMENT_CENTS,
    ensures
        is_recommendation(
            r,
            recommended_unit_price_cents as int,
            billing_unit,
            reason_codes@.map_values(|c: String| c@),
        ),
{
    Recommendation {
        minimum_allowed_cents: recommended_unit_price_cents - MAX_SELLER_ADJUSTMENT_CENTS,
        maximum_allowed_cents: recommended_unit_price_cents + MAX_SELLER_ADJUSTMENT_CENTS,
        recommended_unit_price_cents,
        billing_unit,
        ruleset_version: text("rules-v1"),
        reason_codes,
    }
}

/// The basis-point adjustment for a cleanliness score; scores outside 1..=5 are invalid.
fn cleanliness_adjustment(cleanliness: i64) -> (adjustment: Result<i64, PricingError>)
    ensures
        1 <= cleanliness <= 5 ==> adjustment == Ok::<i64, PricingError>(
            cleanliness_bps(cleanliness as int) as i64,
        ),
        !(1 <= cleanliness <= 5) ==> adjustment == Err::<i64, PricingError>(
            PricingError::InvalidAttributes,
        ),
{
    match cleanliness {
        1 => Ok(-1_000),
        2 => Ok(-500),
        3 => Ok(0),
        4 => Ok(300),
        5 => Ok(500),
        _ => Err(PricingError::InvalidAttributes),
    }
}

/// Scales `cents` by `multiplier` basis points, rounding toward zero.
fn apply_basis_points(cents: i64, multiplier: i64) -> (scaled: Result<i64, PricingError>)
    requires
        cents >= 0,
        multiplier >= 0,
    ensures
        cents * multiplier <= i64::MAX ==> scaled == Ok::<i64, PricingError>(
            scaled_by_basis_points(cents as int, multiplier as int) as i64,
        ),
        cents * multiplier > i64::MAX ==> scaled == Err::<i64, PricingError>(PricingError::Overflow),
{
    match cents.checked_mul(multiplier) {
        Some(value) => Ok(value / BASIS_POINTS),
        None => Err(PricingError::Overflow),
    }
}

proof fn lemma_rounded_to_50_is_multiple(cents: int)
    requires
        cents >= 0,
    ensures
        rounded_to_50(cents) >= 0,
        rounded_to_50(cents) % 50 == 0,
{
    let q = (cents + 25) / 50;
    assert(q >= 0);
    assert((q * 50) % 50 == 0) by (nonlinear_arith);
    assert(q * 50 >= 0) by (nonlinear_arith)
        requires
            q >= 0,
    ;
}

/// A seller's final price never leaves the band of a recommendation: any
/// accepted adjustment lands between its minimum and maximum allowed price.
pub proof fn lemma_final_price_within_band(
    input: PricingCategoryInput,
    r: Recommendation,
    adjustment: i64,
)
    requires
        recommendation_outcome(input, Ok(r)),
    ensures
        final_price(r.recommended_unit_price_cents, adjustment) matches Ok(p)
            ==> r.minimum_allowed_cents <= p <= r.maximum_allowed_cents,
        -MAX_SELLER_ADJUSTMENT_CENTS <= adjustment <= MAX_SELLER_ADJUSTMENT_CENTS
            && r.recommended_unit_price_cents + adjustment >= 0 ==> final_price(
            r.recommended_unit_price_cents,
            adjustment,
        ) == Ok::<i64, PricingError>((r.recommended_unit_price_cents + adjustment) as i64),
{
}

/// The rank of a condition, worst first.
pub open spec fn condition_rank(condition: Condition) -> int {
    match condition {
        Condition::Worn => 0,
        Condition::Fair => 1,
        Condition::Good => 2,
        Condition::LikeNew => 3,
    }
}

/// The rank of a location tier, least sought-after first.
pub open spec fn location_rank(tier: LocationTier) -> int {
    match tier {
        LocationTier::Residential => 0,
        LocationTier::Suburban => 1,
        LocationTier::Urban => 2,
        LocationTier::Premium => 3,
    }
}

/// Listing `a` is at least as good as listing `b`: the same category, model
/// and billing unit, and no attribute worse (a console no older, in no worse
/// condition, no less clean, missing no more features and with no fewer
/// controllers; a workspace no smaller, in no less sought-after location, no
/// less clean and with no less equipment or fewer amenities).
pub open spec fn at_least_as_good(a: PricingCategoryInput, b: PricingCategoryInput) -> bool {
    match (a, b) {
        (PricingCategoryInput::Ps5(x), PricingCategoryInput::Ps5(y)) => {
            &&& x.model == y.model
            &&& x.billing_unit == y.billing_unit
            &&& x.age_months <= y.age_months
            &&& condition_rank(x.condition) >= condition_rank(y.condition)
            &&& x.cleanliness >= y.cleanliness
            &&& x.missing_nonessential_features <= y.missing_nonessential_features
            &&& x.controller_count >= y.controller_count
        },
        (PricingCategoryInput::Workspace(x), PricingCategoryInput::Workspace(y)) => {
            &&& x.billing_unit == y.billing_unit
            &&& x.square_feet >= y.square_feet
            &&& location_rank(x.location_tier) >= location_rank(y.location_tier)
            &&& x.cleanliness >= y.cleanliness
            &&& x.equipment_score >= y.equipment_score
            &&& x.amenity_count >= y.amenity_count
        },
        _ => false,
    }
}

proof fn lemma_rounded_to_50_monotone(x: int, y: int)
    requires
        x <= y,
    ensures
        rounded_to_50(x) <= rounded_to_50(y),
{
    assert((x + 25) / 50 <= (y + 25) / 50) by (nonlinear_arith)
        requires
            x <= y,
    ;
}

proof fn lemma_scaled_monotone(c1: int, c2: int, m1: int, m2: int)
    requires
        0 <= c1 <= c2,
        0 <= m1 <= m2,
    ensures
        scaled_by_basis_points(c1, m1) <= scaled_by_basis_points(c2, m2),
{
    assert(c1 * m1 <= c2 * m2) by (nonlinear_arith)
        requires
            0 <= c1 <= c2,
            0 <= m1 <= m2,
    ;
    let p1 = c1 * m1;
    let p2 = c2 * m2;
    assert(p1 / 10_000 <= p2 / 10_000) by (nonlinear_arith)
        requires
            p1 <= p2,
    ;
}

proof fn lemma_cleanliness_monotone(a: int, b: int)
    requires
        1 <= b <= a <= 5,
    ensures
        cleanliness_bps(a) >= cleanliness_bps(b),
{
}

/// A listing that is at least as good as another is never recommended a
/// lower unit price, when the rules price both.
pub proof fn lemma_better_listings_never_cost_less(
    a: PricingCategoryInput,
    b: PricingCategoryInput,
    ra: Recommendation,
    rb: Recommendation,
)
    requires
        at_least_as_good(a, b),
        recommendation_outcome(a, Ok(ra)),
        recommendation_outcome(b, Ok(rb)),
    ensures
        ra.recommended_unit_price_cents >= rb.recommended_unit_price_cents,
{
    match (a, b) {
        (PricingCategoryInput::Ps5(x), PricingCategoryInput::Ps5(y)) => {
            assert(ps5_attributes_valid(x) && ps5_attributes_valid(y));
            let ax = x.age_months;
            let ay = y.age_months;
            assert(ax / 12 <= ay / 12) by (nonlinear_arith)
                requires
                    0 <= ax <= ay,
            ;
            lemma_cleanliness_monotone(x.cleanliness as int, y.cleanliness as int);
            assert(ps5_multiplier(x) >= ps5_multiplier(y));
            assert(extra_controllers(x) >= extra_controllers(y));
            lemma_scaled_monotone(
                ps5_base_cents(y.model, y.billing_unit),
                ps5_base_cents(x.model, x.billing_unit),
                ps5_multiplier(y),
                ps5_multiplier(x),
            );
            lemma_rounded_to_50_monotone(
                scaled_by_basis_points(ps5_base_cents(y.model, y.billing_unit), ps5_multiplier(y))
                    + extra_controllers(y) * controller_unit_cents(y.billing_unit),
                scaled_by_basis_points(ps5_base_cents(x.model, x.billing_unit), ps5_multiplier(x))
                    + extra_controllers(x) * controller_unit_cents(x.billing_unit),
            );
        },
        (PricingCategoryInput::Workspace(x), PricingCategoryInput::Workspace(y)) => {
            assert(workspace_attributes_valid(x) && workspace_attributes_valid(y));
            lemma_cleanliness_monotone(x.cleanliness as int, y.cleanliness as int);
            assert(workspace_multiplier(x) >= workspace_multiplier(y));
            assert(workspace_base_cents(x) >= workspace_base_cents(y) >= 0);
            lemma_scaled_monotone(
                workspace_base_cents(y),
                workspace_base_cents(x),
                workspace_multiplier(y),
                workspace_multiplier(x),
            );
            lemma_rounded_to_50_monotone(
                scaled_by_basis_points(workspace_base_cents(y), workspace_multiplier(y)),
                scaled_by_basis_points(workspace_base_cents(x), workspace_multiplier(x)),
            );
        },
        _ => {},
    }
}

/// Rounds to the nearest 50 cents, halves up.
fn round_to_50(cents: i64) -> (rounded: Result<i64, PricingError>)
    requires
        cents >= 0,
    ensures
        cents + 25 <= i64::MAX ==> rounded == Ok::<i64, PricingError>(rounded_to_50(cents as int) as i64),
        cents + 25 > i64::MAX ==> rounded == Err::<i64, PricingError>(PricingError::Overflow),
{
    match cents.checked_add(25) {
        Some(value) => Ok((value / 50) * 50),
        None => Err(PricingError::Overflow),
    }
}

/// A workspace billed per day is priced as twelve half hours: for two
/// workspace listings alike but for the billing unit, both recommendations
/// come from the same multiplier `m`, which the proof returns (in basis points, 5 000 to 15 000)
/// applied to the half-hour base of 2 cents per square foot plus 300, once
/// for the half hour and twelve times for the day, each rounded to the
/// nearest 50 cents, halves up.
pub proof fn lemma_day_is_twelve_half_hours(
    half_hour: WorkspaceInput,
    day: WorkspaceInput,
    rh: Recommendation,
    rd: Recommendation,
) -> (m: int)
    requires
        half_hour.billing_unit == BillingUnit::ThirtyMinutes,
        day.billing_unit == BillingUnit::Day,
        day.square_feet == half_hour.square_feet,
        day.location_tier == half_hour.location_tier,
        day.cleanliness == half_hour.cleanliness,
        day.equipment_score == half_hour.equipment_score,
        day.amenity_count == half_hour.amenity_count,
        recommendation_outcome(PricingCategoryInput::Workspace(half_hour), Ok(rh)),
        recommendation_outcome(PricingCategoryInput::Workspace(day), Ok(rd)),
    ensures
        5_000 <= m <= 15_000,
        rh.recommended_unit_price_cents == (((half_hour.square_feet * 2 + 300) * m / 10_000 + 25)
            / 50) * 50,
        rd.recommended_unit_price_cents == ((((half_hour.square_feet * 2 + 300) * 12) * m / 10_000
            + 25) / 50) * 50,
        rd.billing_unit == BillingUnit::Day,
        rd.minimum_allowed_cents == rd.recommended_unit_price_cents - 500,
        rd.maximum_allowed_cents == rd.recommended_unit_price_cents + 500,
{
    let m = workspace_multiplier(half_hour);
    let h = half_hour.square_feet * 2 + 300;
    assert(workspace_multiplier(day) == m);
    assert(workspace_base_cents(half_hour) == h);
    assert(workspace_base_cents(day) == h * 12);
    assert(rh.recommended_unit_price_cents == ((h * m / 10_000 + 25) / 50) * 50);
    assert(rd.recommended_unit_price_cents == (((h * 12) * m / 10_000 + 25) / 50) * 50);
    assert(5_000 <= m <= 15_000);
    m
}

} // verus!
