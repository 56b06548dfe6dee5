//! Stripe: webhook signatures (HMAC-SHA256 over `timestamp.payload`, checked
//! within five minutes) and the payments that verified events report.
use vstd::prelude::*;

use hmac::{Hmac, Mac};
use sha2::Sha256;
use subtle::ConstantTimeEq;

use crate::ports::order_repository::VerifiedPayment;
use crate::ids::{uuid_string, uuid_text};
use crate::ports::payment_gateway::{CheckoutRequest, CheckoutSession, PaymentError};
use crate::text::{
    decimal, digit_char, hex_char, parse_i64, parsed_i64, push_char, push_decimal,
    push_signed_decimal, push_text, signed_decimal, split_on, strip_prefix, text, text_eq,
    lemma_decimal_digits, lemma_signed_decimal_parses, lemma_split_on_nonempty,
    lemma_split_on_pair,
};

verus! {

/// A Stripe event, as far as payments are concerned.
#[derive(Debug, Clone, PartialEq, Eq)]
pub struct StripeEvent {
    pub id: String,
    pub event_type: String,
    pub order_id: Option<u128>,
    pub payment_status: Option<String>,
    pub amount_total_cents: Option<i64>,
    pub currency: Option<String>,
}

/// The payment a Stripe event confirms: only a completed checkout session
/// that is paid, and only when it names the order, amount and currency.
pub open spec fn confirmed_payment(event: StripeEvent, payment: Option<VerifiedPayment>) -> bool {
    if event.event_type@ == "checkout.session.completed"@ && (event.payment_status matches Some(
        status,
    ) && status@ == "paid"@) && event.order_id is Some && event.amount_total_cents is Some
        && event.currency is Some {
        payment matches Some(p) && p.event_id == event.id && p.order_id == event.order_id->0
            && p.amount_total_cents == event.amount_total_cents->0 && p.currency
            == event.currency->0
    } else {
        payment is None
    }
}

impl StripeEvent {
    pub fn verified_payment(&self) -> (payment: Option<VerifiedPayment>)
        ensures
            confirmed_payment(*self, payment),
    {
        if !text_eq(self.event_type.as_str(), "checkout.session.completed") {
            return None;
        }
        match &self.payment_status {
            Some(status) => if !text_eq(status.as_str(), "paid") {
                return None;
            },
            None => return None,
        }
        let order_id = match self.order_id {
            Some(id) => id,
            None => return None,
        };
        let amount_total_cents = match self.amount_total_cents {
            Some(amount) => amount,
            None => return None,
        };
        let currency = match &self.currency {
            Some(c) => c.clone(),
            None => return None,
        };
        Some(VerifiedPayment { event_id: self.id.clone(), order_id, amount_total_cents, currency })
    }
}

#[derive(Debug, Clone, Copy, PartialEq, Eq, Structural)]
pub enum WebhookError {
    MalformedHeader,
    Expired,
    InvalidSignature,
    InvalidPayload,
}

/// A webhook's timestamp may be at most this many seconds away from now.
pub const SIGNATURE_TOLERANCE_SECONDS: u64 = 300;

// ---------------------------------------------------------------------------
// The outside computations: HMAC-SHA256, hex and constant-time comparison.

/// The HMAC-SHA256 tag of `message` under `key`.
pub uninterp spec fn hmac_sha256(key: Seq<u8>, message: Seq<u8>) -> Seq<u8>;

/// `Hmac::<Sha256>` (hmac, sha2): the 32-byte tag of `message` under `key`.
/// The tag itself is left to the name `hmac_sha256`; a key of any length is
/// accepted (longer keys are hashed first), so no error comes back.
#[verifier::external_body]
fn hmac_sha256_tag(key: &[u8], message: &[u8]) -> (tag: Vec<u8>)
    ensures
        tag@ == hmac_sha256(key@, message@),
        tag@.len() == 32,
{
    let mut mac = match <Hmac<Sha256> as Mac>::new_from_slice(key) {
        Ok(mac) => mac,
        Err(_) => return Vec::new(),
    };
    mac.update(message);
    mac.finalize().into_bytes().to_vec()
}

/// The value of a hexadecimal digit, either case.
pub open spec fn hex_value(c: char) -> Option<nat> {
    if '0' <= c && c <= '9' {
        Some((c as nat - '0' as nat) as nat)
    } else if 'a' <= c && c <= 'f' {
        Some((c as nat - 'a' as nat + 10) as nat)
    } else if 'A' <= c && c <= 'F' {
        Some((c as nat - 'A' as nat + 10) as nat)
    } else {
        None
    }
}

/// What `hex::decode` gives for `s`: one byte for each pair of hexadecimal
/// digits, or nothing for an odd length or any other character.
pub open spec fn hex_decoded(s: Seq<char>) -> Option<Seq<u8>>
    decreases s.len(),
{
    if s.len() == 0 {
        Some(Seq::empty())
    } else if s.len() == 1 {
        None
    } else {
        match (hex_decoded(s.subrange(0, s.len() - 2)), hex_value(s[s.len() - 2]), hex_value(
            s[s.len() - 1],
        )) {
            (Some(prefix), Some(high), Some(low)) => Some(prefix.push((high * 16 + low) as u8)),
            _ => None,
        }
    }
}

/// `hex::decode`: the bytes that `text` writes in hexadecimal, if it does.
#[verifier::external_body]
fn hex_decode(text: &str) -> (bytes: Option<Vec<u8>>)
    ensures
        match hex_decoded(text@) {
            Some(v) => bytes matches Some(b) && b@ == v,
            None => bytes is None,
        },
{
    hex::decode(text).ok()
}

/// What `hex::encode` gives: two lowercase hexadecimal digits per byte.
pub open spec fn hex_encoded(bytes: Seq<u8>) -> Seq<char>
    decreases bytes.len(),
{
    if bytes.len() == 0 {
        Seq::empty()
    } else {
        hex_encoded(bytes.drop_last()) + seq![
            hex_char((bytes.last() / 16) as nat),
            hex_char((bytes.last() % 16) as nat),
        ]
    }
}

/// Reading back a lowercase hexadecimal rendering gives the bytes, and the
/// rendering holds only hexadecimal digits.
pub proof fn lemma_hex_round_trip(bytes: Seq<u8>)
    ensures
        hex_decoded(hex_encoded(bytes)) == Some(bytes),
        hex_encoded(bytes).len() == 2 * bytes.len(),
        forall|i: int| 0 <= i < hex_encoded(bytes).len() ==> #[trigger] hex_value(hex_encoded(bytes)[i]) is Some,
    decreases bytes.len(),
{
    if bytes.len() > 0 {
        let rest = bytes.drop_last();
        lemma_hex_round_trip(rest);
        let b = bytes.last();
        let hi = (b / 16) as nat;
        let lo = (b % 16) as nat;
        assert(hex_value(hex_char(hi)) == Some(hi));
        assert(hex_value(hex_char(lo)) == Some(lo));
        let e = hex_encoded(bytes);
        assert(e == hex_encoded(rest) + seq![hex_char(hi), hex_char(lo)]);
        assert(e.subrange(0, e.len() - 2) =~= hex_encoded(rest));
        assert(e[e.len() - 2] == hex_char(hi));
        assert(e[e.len() - 1] == hex_char(lo));
        assert((hi * 16 + lo) as u8 == b);
        assert(rest.push(b) =~= bytes);
        assert forall|i: int| 0 <= i < e.len() implies #[trigger] hex_value(e[i]) is Some by {
            if i < e.len() - 2 {
                assert(e[i] == hex_encoded(rest)[i]);
            }
        }
    }
}

/// `hex::encode`: `data` in lowercase hexadecimal.
#[verifier::external_body]
fn hex_encode(data: &[u8]) -> (text: String)
    ensures
        text@ == hex_encoded(data@),
{
    hex::encode(data)
}

/// `ConstantTimeEq::ct_eq` on byte slices (subtle): whether `a` and `b` hold
/// the same bytes, compared in time that does not depend on their contents.
#[verifier::external_body]
fn constant_time_eq(a: &[u8], b: &[u8]) -> (same: bool)
    ensures
        same == (a@ == b@),
{
    bool::from(a.ct_eq(b))
}

// ---------------------------------------------------------------------------
// Signatures.

/// The ASCII bytes of a text of ASCII characters.
pub open spec fn ascii_bytes(s: Seq<char>) -> Seq<u8> {
    s.map_values(|c: char| c as u8)
}

/// The message a Stripe signature covers: the timestamp in decimal, a dot and
/// the payload.
pub open spec fn signed_message(timestamp: i64, payload: Seq<u8>) -> Seq<u8> {
    ascii_bytes(signed_decimal(timestamp as int)) + seq![46u8] + payload
}

fn push_decimal_bytes(v: &mut Vec<u8>, n: u64)
    ensures
        final(v)@ == old(v)@ + ascii_bytes(decimal(n as nat)),
    decreases n,
{
    if n >= 10 {
        push_decimal_bytes(v, n / 10);
    }
    let d = n % 10;
    v.push((48 + d) as u8);
    proof {
        let ghost c = digit_char(d as nat);
        assert(c as u8 == (48 + d) as u8);
        if n >= 10 {
            assert(decimal(n as nat) == decimal((n / 10) as nat).push(c));
            assert(ascii_bytes(decimal(n as nat)) =~= ascii_bytes(decimal((n / 10) as nat)).push(
                c as u8,
            ));
        } else {
            assert(ascii_bytes(decimal(n as nat)) =~= seq![c as u8]);
        }
        assert(final(v)@ =~= old(v)@ + ascii_bytes(decimal(n as nat)));
    }
}

fn signed_message_bytes(timestamp: i64, payload: &[u8]) -> (message: Vec<u8>)
    ensures
        message@ == signed_message(timestamp, payload@),
{
    let mut message: Vec<u8> = Vec::new();
    if timestamp < 0 {
        message.push(45u8);
        let magnitude: u64 = (0i128 - (timestamp as i128)) as u64;
        push_decimal_bytes(&mut message, magnitude);
        assert(ascii_bytes(signed_decimal(timestamp as int)) =~= seq![45u8] + ascii_bytes(
            decimal(magnitude as nat),
        ));
    } else {
        push_decimal_bytes(&mut message, timestamp as u64);
    }
    let ghost head = message@;
    message.push(46u8);
    let mut i: usize = 0;
    while i < payload.len()
        invariant
            0 <= i <= payload@.len(),
            message@ == head + seq![46u8] + payload@.subrange(0, i as int),
        decreases payload@.len() - i,
    {
        message.push(payload[i]);
        i = i + 1;
        assert(message@ =~= head + seq![46u8] + payload@.subrange(0, i as int));
    }
    assert(payload@.subrange(0, payload@.len() as int) =~= payload@);
    message
}

/// The timestamp and signature a header states, as a `t=` or `v1=` item sets
/// them: the last such item wins, and an item that does not parse clears the field.
pub open spec fn header_item(
    fields: (Option<i64>, Option<Seq<u8>>),
    item: Seq<char>,
) -> (Option<i64>, Option<Seq<u8>>) {
    if item.len() >= 2 && item.subrange(0, 2) == "t="@ {
        (parsed_i64(item.subrange(2, item.len() as int)), fields.1)
    } else if item.len() >= 3 && item.subrange(0, 3) == "v1="@ {
        (fields.0, hex_decoded(item.subrange(3, item.len() as int)))
    } else {
        fields
    }
}

pub open spec fn header_fields_of(items: Seq<Seq<char>>) -> (Option<i64>, Option<Seq<u8>>)
    decreases items.len(),
{
    if items.len() == 0 {
        (None, None)
    } else {
        header_item(header_fields_of(items.drop_last()), items.last())
    }
}

/// The timestamp and signature of a `Stripe-Signature` header.
pub open spec fn header_fields(header: Seq<char>) -> (Option<i64>, Option<Seq<u8>>) {
    header_fields_of(split_on(header, ','))
}

/// The distance between two instants in seconds.
pub open spec fn seconds_apart(a: i64, b: i64) -> int {
    if a >= b {
        a - b
    } else {
        b - a
    }
}

/// The verdict on a webhook: a header with a timestamp and a hex signature,
/// a timestamp at most five minutes from now, and a signature that is the
/// HMAC-SHA256 of the signed message under the secret.
pub open spec fn signature_verdict(
    payload: Seq<u8>,
    header: Seq<char>,
    secret: Seq<u8>,
    now_unix: i64,
) -> Result<(), WebhookError> {
    let fields = header_fields(header);
    if fields.0 is None || fields.1 is None {
        Err(WebhookError::MalformedHeader)
    } else if seconds_apart(now_unix, fields.0->0) > SIGNATURE_TOLERANCE_SECONDS {
        Err(WebhookError::Expired)
    } else if hmac_sha256(secret, signed_message(fields.0->0, payload)) != fields.1->0 {
        Err(WebhookError::InvalidSignature)
    } else {
        Ok(())
    }
}

fn header_step(
    timestamp: &mut Option<i64>,
    signature: &mut Option<Vec<u8>>,
    item: &str,
)
    ensures
        ({
            let after = header_item(
                (*old(timestamp), match *old(signature) {
                    Some(v) => Some(v@),
                    None => None,
                }),
                item@,
            );
            &&& *final(timestamp) == after.0
            &&& match after.1 {
                Some(v) => *final(signature) matches Some(s) && s@ == v,
                None => *final(signature) is None,
            }
        }),
{
    proof {
        reveal_strlit("t=");
        reveal_strlit("v1=");
    }
    match strip_prefix(item, "t=") {
        Some(value) => {
            *timestamp = parse_i64(value);
        },
        None => match strip_prefix(item, "v1=") {
            Some(value) => {
                *signature = hex_decode(value);
            },
            None => {},
        },
    }
}

/// Reads the timestamp and signature of a `Stripe-Signature` header.
fn read_header(header: &str) -> (fields: (Option<i64>, Option<Vec<u8>>))
    ensures
        fields.0 == header_fields(header@).0,
        match header_fields(header@).1 {
            Some(v) => fields.1 matches Some(s) && s@ == v,
            None => fields.1 is None,
        },
{
    let ghost h = header@;
    let n = header.unicode_len();
    let mut timestamp: Option<i64> = None;
    let mut signature: Option<Vec<u8>> = None;
    let mut current = String::new();
    let mut i: usize = 0;
    while i < n
        invariant
            n == h.len(),
            h == header@,
            0 <= i <= n,
            split_on(h.subrange(0, i as int), ',').len() >= 1,
            current@ == split_on(h.subrange(0, i as int), ',').last(),
            timestamp == header_fields_of(split_on(h.subrange(0, i as int), ',').drop_last()).0,
            match header_fields_of(split_on(h.subrange(0, i as int), ',').drop_last()).1 {
                Some(v) => signature matches Some(s) && s@ == v,
                None => signature is None,
            },
        decreases n - i,
    {
        let c = header.get_char(i);
        let ghost prefix = h.subrange(0, i as int);
        let ghost next = h.subrange(0, i + 1);
        assert(next.drop_last() =~= prefix);
        assert(next.last() == c);
        proof {
            lemma_split_on_nonempty(prefix, ',');
        }
        if c == ',' {
            header_step(&mut timestamp, &mut signature, current.as_str());
            assert(split_on(next, ',').drop_last() =~= split_on(prefix, ','));
            current = String::new();
        } else {
            push_char(&mut current, c);
            assert(split_on(next, ',').drop_last() =~= split_on(prefix, ',').drop_last());
        }
        i = i + 1;
    }
    assert(h.subrange(0, n as int) =~= h);
    header_step(&mut timestamp, &mut signature, current.as_str());
    (timestamp, signature)
}

/// Checks a Stripe webhook's signature header against the payload and the
/// signing secret at time `now_unix` (seconds since the epoch).
pub fn verify_webhook_signature(
    payload: &[u8],
    signature_header: &str,
    secret: &[u8],
    now_unix: i64,
) -> (verdict: Result<(), WebhookError>)
    ensures
        verdict == signature_verdict(payload@, signature_header@, secret@, now_unix),
{
    let (timestamp, signature) = read_header(signature_header);
    let timestamp = match timestamp {
        Some(t) => t,
        None => return Err(WebhookError::MalformedHeader),
    };
    let signature = match signature {
        Some(s) => s,
        None => return Err(WebhookError::MalformedHeader),
    };
    let apart: i128 = if now_unix >= timestamp {
        now_unix as i128 - timestamp as i128
    } else {
        timestamp as i128 - now_unix as i128
    };
    if apart > SIGNATURE_TOLERANCE_SECONDS as i128 {
        return Err(WebhookError::Expired);
    }
    let message = signed_message_bytes(timestamp, payload);
    let expected = hmac_sha256_tag(secret, message.as_slice());
    if !constant_time_eq(expected.as_slice(), signature.as_slice()) {
        return Err(WebhookError::InvalidSignature);
    }
    Ok(())
}

/// The header Stripe would send for `payload` signed with `secret` at `timestamp`.
pub open spec fn signature_header_for(timestamp: i64, payload: Seq<u8>, secret: Seq<u8>) -> Seq<char> {
    "t="@ + signed_decimal(timestamp as int) + ",v1="@ + hex_encoded(
        hmac_sha256(secret, signed_message(timestamp, payload)),
    )
}

/// Builds a valid `Stripe-Signature` header, as Stripe signs a webhook.
pub fn test_signature_header(timestamp: i64, payload: &[u8], secret: &[u8]) -> (header: String)
    ensures
        header@ == signature_header_for(timestamp, payload@, secret@),
{
    let message = signed_message_bytes(timestamp, payload);
    let tag = hmac_sha256_tag(secret, message.as_slice());
    let mut header = text("t=");
    push_signed_decimal(&mut header, timestamp);
    push_text(&mut header, ",v1=");
    push_text(&mut header, hex_encode(tag.as_slice()).as_str());
    header
}

/// Verifies a webhook and hands on its event: the signature is checked
/// first, then `decoded`, the payload as a JSON reader read it into an event
/// (`None` when the payload is not one), is the event.
pub fn verify_webhook(
    payload: &[u8],
    signature_header: &str,
    secret: &[u8],
    now_unix: i64,
    decoded: Option<StripeEvent>,
) -> (event: Result<StripeEvent, WebhookError>)
    ensures
        match signature_verdict(payload@, signature_header@, secret@, now_unix) {
            Err(w) => event == Err::<StripeEvent, WebhookError>(w),
            Ok(()) => match decoded {
                Some(e) => event == Ok::<StripeEvent, WebhookError>(e),
                None => event == Err::<StripeEvent, WebhookError>(WebhookError::InvalidPayload),
            },
        },
{
    verify_webhook_signature(payload, signature_header, secret, now_unix)?;
    match decoded {
        Some(e) => Ok(e),
        None => Err(WebhookError::InvalidPayload),
    }
}

/// The form fields of a Checkout Session for `request`: one line item in
/// U.S. dollars, and the order's id in the metadata.
pub open spec fn checkout_fields(
    request: CheckoutRequest,
    success_url: Seq<char>,
    cancel_url: Seq<char>,
) -> Seq<(Seq<char>, Seq<char>)> {
    seq![
        ("mode"@, "payment"@),
        ("success_url"@, success_url),
        ("cancel_url"@, cancel_url),
        ("line_items[0][quantity]"@, "1"@),
        ("line_items[0][price_data][currency]"@, "usd"@),
        ("line_items[0][price_data][unit_amount]"@, decimal(request.amount_cents as nat)),
        ("line_items[0][price_data][product_data][name]"@, "BSR Hub order"@),
        ("metadata[order_id]"@, uuid_text(request.order_id)),
    ]
}

fn field(name: &str, value: String) -> (pair: (String, String))
    ensures
        pair.0@ == name@,
        pair.1@ == value@,
{
    (text(name), value)
}

/// The form that opens a Checkout Session for `request`; only a positive
/// amount can be charged.
pub fn checkout_form(request: CheckoutRequest, success_url: &str, cancel_url: &str) -> (form:
    Result<Vec<(String, String)>, PaymentError>)
    ensures
        request.amount_cents <= 0 ==> form == Err::<Vec<(String, String)>, PaymentError>(
            PaymentError::InvalidAmount,
        ),
        request.amount_cents > 0 ==> (form matches Ok(f) && f@.len() == 8 && forall|i: int|
            0 <= i < 8 ==> (#[trigger] f@[i]).0@ == checkout_fields(
                request,
                success_url@,
                cancel_url@,
            )[i].0 && f@[i].1@ == checkout_fields(request, success_url@, cancel_url@)[i].1),
{
    if request.amount_cents <= 0 {
        return Err(PaymentError::InvalidAmount);
    }
    let mut amount = String::new();
    push_decimal(&mut amount, request.amount_cents as u64);
    let mut form: Vec<(String, String)> = Vec::new();
    form.push(field("mode", text("payment")));
    form.push(field("success_url", text(success_url)));
    form.push(field("cancel_url", text(cancel_url)));
    form.push(field("line_items[0][quantity]", text("1")));
    form.push(field("line_items[0][price_data][currency]", text("usd")));
    form.push(field("line_items[0][price_data][unit_amount]", amount));
    form.push(field("line_items[0][price_data][product_data][name]", text("BSR Hub order")));
    form.push(field("metadata[order_id]", uuid_string(request.order_id)));
    assert(amount@ == decimal(request.amount_cents as nat));
    Ok(form)
}

/// The session the provider's answer opened: none unless it answered with
/// success and a body that names the session and its URL.
pub fn checkout_session(succeeded: bool, body: Option<(String, String)>) -> (session: Result<
    CheckoutSession,
    PaymentError,
>)
    ensures
        succeeded ==> match body {
            Some((id, url)) => session matches Ok(s) && s.payment_intent_id == id
                && s.checkout_url == url,
            None => session == Err::<CheckoutSession, PaymentError>(PaymentError::Unavailable),
        },
        !succeeded ==> session == Err::<CheckoutSession, PaymentError>(
            PaymentError::Unavailable,
        ),
{
    if !succeeded {
        return Err(PaymentError::Unavailable);
    }
    match body {
        Some((id, url)) => Ok(CheckoutSession { payment_intent_id: id, checkout_url: url }),
        None => Err(PaymentError::Unavailable),
    }
}

/// A header made by `test_signature_header` verifies the payload it was
/// made for, under the secret it was made with, at any time within five
/// minutes of its timestamp; later or earlier than that it is refused as
/// expired.
pub proof fn lemma_signed_header_verifies(
    timestamp: i64,
    payload: Seq<u8>,
    secret: Seq<u8>,
    now_unix: i64,
)
    ensures
        signature_verdict(payload, signature_header_for(timestamp, payload, secret), secret, now_unix)
            == if seconds_apart(now_unix, timestamp) > SIGNATURE_TOLERANCE_SECONDS {
            Err::<(), WebhookError>(WebhookError::Expired)
        } else {
            Ok(())
        },
{
    reveal_strlit("t=");
    reveal_strlit(",v1=");
    reveal_strlit("v1=");
    let tag = hmac_sha256(secret, signed_message(timestamp, payload));
    let dec = signed_decimal(timestamp as int);
    let hex = hex_encoded(tag);
    let a = "t="@ + dec;
    let c = "v1="@ + hex;
    let header = signature_header_for(timestamp, payload, secret);
    assert(header =~= a + seq![','] + c);
    lemma_signed_decimal_parses(timestamp);
    lemma_hex_round_trip(tag);
    if timestamp < 0 {
        lemma_decimal_digits((-timestamp) as nat);
    } else {
        lemma_decimal_digits(timestamp as nat);
    }
    assert forall|i: int| 0 <= i < a.len() implies a[i] != ',' by {
        if i >= 2 {
            assert(a[i] == dec[i - 2]);
            if timestamp < 0 && i >= 3 {
                assert(dec[i - 2] == decimal((-timestamp) as nat)[i - 3]);
            }
        }
    }
    assert forall|i: int| 0 <= i < c.len() implies c[i] != ',' by {
        if i >= 3 {
            assert(c[i] == hex[i - 3]);
            assert(hex_value(hex[i - 3]) is Some);
        }
    }
    lemma_split_on_pair(a, c, ',');
    let items = split_on(header, ',');
    assert(items == seq![a, c]);
    assert(items.drop_last() =~= seq![a]);
    assert(seq![a].drop_last() =~= Seq::<Seq<char>>::empty());
    assert(a.subrange(0, 2) =~= "t="@);
    assert(a.subrange(2, a.len() as int) =~= dec);
    assert(c.subrange(0, 2) != "t="@) by {
        assert(c.subrange(0, 2)[0] == 'v');
    }
    assert(c.subrange(0, 3) =~= "v1="@);
    assert(c.subrange(3, c.len() as int) =~= hex);
    let one = seq![a];
    assert(one.last() == a);
    assert(header_fields_of(one.drop_last()) == (None::<i64>, None::<Seq<u8>>));
    assert(parsed_i64(a.subrange(2, a.len() as int)) == Some(timestamp));
    assert(header_item((None::<i64>, None::<Seq<u8>>), a) == (Some(timestamp), None::<Seq<u8>>));
    assert(header_fields_of(one) == (Some(timestamp), None::<Seq<u8>>));
    assert(header_fields(header) == (Some(timestamp), Some(tag)));
}

} // verus!
