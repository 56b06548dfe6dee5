//! Service configuration, read from `NAME=value` settings and checked against
//! the business rules before the service starts.
use vstd::prelude::*;

use crate::text::{parse_i64, parsed_i64, push_text, starts_with, text};

verus! {

#[derive(Debug, Clone)]
pub struct Config {
    pub port: u16,
    pub service_fee_bps: i64,
    pub reservation_minutes: i64,
    pub mongodb_uri: String,
    pub mongodb_database: String,
    pub supabase_url: String,
    pub supabase_anon_key: String,
    pub stripe_secret_key: String,
    pub stripe_webhook_secret: String,
    pub web_success_url: String,
    pub web_cancel_url: String,
    pub allowed_origin: String,
}

/// The settings as pairs of character sequences.
pub open spec fn settings_view(values: Seq<(String, String)>) -> Seq<(Seq<char>, Seq<char>)> {
    values.map_values(|pair: (String, String)| (pair.0@, pair.1@))
}

/// The value of setting `name`: where a name is given more than once, the
/// last value wins.
pub open spec fn setting(values: Seq<(Seq<char>, Seq<char>)>, name: Seq<char>) -> Option<Seq<char>>
    decreases values.len(),
{
    if values.len() == 0 {
        None
    } else if values.last().0 == name {
        Some(values.last().1)
    } else {
        setting(values.drop_last(), name)
    }
}

/// A required setting: present and not empty.
pub open spec fn required_setting(values: Seq<(Seq<char>, Seq<char>)>, name: Seq<char>) -> Option<Seq<char>> {
    match setting(values, name) {
        Some(v) => if v.len() > 0 { Some(v) } else { None },
        None => None,
    }
}

/// An integer setting, `default` standing in where it is absent.
pub open spec fn integer_setting(
    values: Seq<(Seq<char>, Seq<char>)>,
    name: Seq<char>,
    default: Seq<char>,
) -> Option<i64> {
    match setting(values, name) {
        Some(v) => parsed_i64(v),
        None => parsed_i64(default),
    }
}

/// Characters a MongoDB database name may not hold.
pub open spec fn unsupported_database_char(c: char) -> bool {
    c == '/' || c == '\\' || c == '.' || c == ' ' || c == '"' || c == '$' || c == '\0'
}

pub open spec fn required_message(name: Seq<char>) -> Seq<char> {
    name + " is required"@
}

pub open spec fn integer_message(name: Seq<char>) -> Seq<char> {
    name + " must be an integer"@
}

/// The first rule that the settings break, in the order they are checked, as
/// its message; `None` where the configuration is acceptable.
pub open spec fn config_problem(v: Seq<(Seq<char>, Seq<char>)>) -> Option<Seq<char>> {
    let port = integer_setting(v, "PORT"@, "8080"@);
    let fee = integer_setting(v, "SERVICE_FEE_BPS"@, "600"@);
    let hold = integer_setting(v, "RESERVATION_MINUTES"@, "30"@);
    let key = required_setting(v, "STRIPE_SECRET_KEY"@);
    let database = required_setting(v, "MONGODB_DATABASE"@);
    if port is None {
        Some(integer_message("PORT"@))
    } else if !(0 <= port->0 <= 65_535) {
        Some("PORT must be a u16"@)
    } else if fee is None {
        Some(integer_message("SERVICE_FEE_BPS"@))
    } else if hold is None {
        Some(integer_message("RESERVATION_MINUTES"@))
    } else if !(0 <= fee->0 <= 10_000) {
        Some("SERVICE_FEE_BPS must be between 0 and 10000"@)
    } else if hold->0 <= 0 {
        Some("RESERVATION_MINUTES must be positive"@)
    } else if key is None {
        Some(required_message("STRIPE_SECRET_KEY"@))
    } else if !(key->0.len() >= 8 && key->0.subrange(0, 8) == "sk_test_"@) {
        Some("STRIPE_SECRET_KEY must be a Stripe test-mode key"@)
    } else if database is None {
        Some(required_message("MONGODB_DATABASE"@))
    } else if exists|i: int| 0 <= i < database->0.len() && unsupported_database_char(
        #[trigger] database->0[i],
    ) {
        Some("MONGODB_DATABASE contains unsupported characters"@)
    } else if required_setting(v, "MONGODB_URI"@) is None {
        Some(required_message("MONGODB_URI"@))
    } else if required_setting(v, "SUPABASE_URL"@) is None {
        Some(required_message("SUPABASE_URL"@))
    } else if required_setting(v, "SUPABASE_ANON_KEY"@) is None {
        Some(required_message("SUPABASE_ANON_KEY"@))
    } else if required_setting(v, "STRIPE_WEBHOOK_SECRET"@) is None {
        Some(required_message("STRIPE_WEBHOOK_SECRET"@))
    } else if required_setting(v, "WEB_SUCCESS_URL"@) is None {
        Some(required_message("WEB_SUCCESS_URL"@))
    } else if required_setting(v, "WEB_CANCEL_URL"@) is None {
        Some(required_message("WEB_CANCEL_URL"@))
    } else if required_setting(v, "ALLOWED_ORIGIN"@) is None {
        Some(required_message("ALLOWED_ORIGIN"@))
    } else {
        None
    }
}

/// `c` holds what the settings `v` say.
pub open spec fn config_matches(c: Config, v: Seq<(Seq<char>, Seq<char>)>) -> bool {
    &&& c.port as i64 == integer_setting(v, "PORT"@, "8080"@)->0
    &&& c.service_fee_bps == integer_setting(v, "SERVICE_FEE_BPS"@, "600"@)->0
    &&& c.reservation_minutes == integer_setting(v, "RESERVATION_MINUTES"@, "30"@)->0
    &&& Some(c.mongodb_uri@) == required_setting(v, "MONGODB_URI"@)
    &&& Some(c.mongodb_database@) == required_setting(v, "MONGODB_DATABASE"@)
    &&& Some(c.supabase_url@) == required_setting(v, "SUPABASE_URL"@)
    &&& Some(c.supabase_anon_key@) == required_setting(v, "SUPABASE_ANON_KEY"@)
    &&& Some(c.stripe_secret_key@) == required_setting(v, "STRIPE_SECRET_KEY"@)
    &&& Some(c.stripe_webhook_secret@) == required_setting(v, "STRIPE_WEBHOOK_SECRET"@)
    &&& Some(c.web_success_url@) == required_setting(v, "WEB_SUCCESS_URL"@)
    &&& Some(c.web_cancel_url@) == required_setting(v, "WEB_CANCEL_URL"@)
    &&& Some(c.allowed_origin@) == required_setting(v, "ALLOWED_ORIGIN"@)
}

/// Finds the position of the last setting called `name`.
fn find_setting(values: &Vec<(String, String)>, name: &str) -> (found: Option<usize>)
    ensures
        match found {
            Some(i) => i < values@.len() && setting(settings_view(values@), name@) == Some(
                values@[i as int].1@,
            ),
            None => setting(settings_view(values@), name@) is None,
        },
{
    let mut i: usize = values.len();
    assert(values@.subrange(0, i as int) =~= values@);
    while i > 0
        invariant
            i <= values@.len(),
            setting(settings_view(values@), name@) == setting(
                settings_view(values@.subrange(0, i as int)),
                name@,
            ),
        decreases i,
    {
        let ghost prefix = settings_view(values@.subrange(0, i as int));
        assert(settings_view(values@.subrange(0, i - 1)) =~= prefix.drop_last());
        if crate::text::text_eq(values[i - 1].0.as_str(), name) {
            return Some(i - 1);
        }
        i = i - 1;
    }
    assert(settings_view(values@.subrange(0, 0)) =~= Seq::<(Seq<char>, Seq<char>)>::empty());
    None
}

fn required(values: &Vec<(String, String)>, name: &str) -> (r: Result<String, String>)
    ensures
        match required_setting(settings_view(values@), name@) {
            Some(v) => r matches Ok(s) && s@ == v,
            None => r matches Err(m) && m@ == required_message(name@),
        },
{
    match find_setting(values, name) {
        Some(i) => {
            let value = values[i].1.as_str();
            if value.unicode_len() > 0 {
                return Ok(text(value));
            }
        },
        None => {},
    }
    let mut message = text(name);
    push_text(&mut message, " is required");
    Err(message)
}

fn integer(values: &Vec<(String, String)>, name: &str, default: &str) -> (r: Result<i64, String>)
    ensures
        match integer_setting(settings_view(values@), name@, default@) {
            Some(n) => r == Ok::<i64, String>(n),
            None => r matches Err(m) && m@ == integer_message(name@),
        },
{
    let parsed = match find_setting(values, name) {
        Some(i) => parse_i64(values[i].1.as_str()),
        None => parse_i64(default),
    };
    match parsed {
        Some(n) => Ok(n),
        None => {
            let mut message = text(name);
            push_text(&mut message, " must be an integer");
            Err(message)
        },
    }
}

fn has_unsupported_char(name: &str) -> (found: bool)
    ensures
        found == exists|i: int| 0 <= i < name@.len() && unsupported_database_char(
            #[trigger] name@[i],
        ),
{
    let n = name.unicode_len();
    let mut i: usize = 0;
    while i < n
        invariant
            n == name@.len(),
            i <= n,
            forall|j: int| 0 <= j < i ==> !unsupported_database_char(#[trigger] name@[j]),
        decreases n - i,
    {
        let c = name.get_char(i);
        if c == '/' || c == '\\' || c == '.' || c == ' ' || c == '"' || c == '$' || c == '\0' {
            assert(unsupported_database_char(name@[i as int]));
            return true;
        }
        i = i + 1;
    }
    false
}

impl Config {
    /// Builds the configuration from settings, or names the first rule they break.
    pub fn from_values(values: Vec<(String, String)>) -> (result: Result<Config, String>)
        ensures
            match config_problem(settings_view(values@)) {
                Some(message) => result matches Err(m) && m@ == message,
                None => result matches Ok(c) && config_matches(c, settings_view(values@)),
            },
    {
        let port_value = integer(&values, "PORT", "8080")?;
        if port_value < 0 || port_value > 65_535 {
            return Err(text("PORT must be a u16"));
        }
        let port = port_value as u16;
        let service_fee_bps = integer(&values, "SERVICE_FEE_BPS", "600")?;
        let reservation_minutes = integer(&values, "RESERVATION_MINUTES", "30")?;
        if service_fee_bps < 0 || service_fee_bps > 10_000 {
            return Err(text("SERVICE_FEE_BPS must be between 0 and 10000"));
        }
        if reservation_minutes <= 0 {
            return Err(text("RESERVATION_MINUTES must be positive"));
        }
        let stripe_secret_key = required(&values, "STRIPE_SECRET_KEY")?;
        proof {
            reveal_strlit("sk_test_");
        }
        if !starts_with(stripe_secret_key.as_str(), "sk_test_") {
            return Err(text("STRIPE_SECRET_KEY must be a Stripe test-mode key"));
        }
        let mongodb_database = required(&values, "MONGODB_DATABASE")?;
        if has_unsupported_char(mongodb_database.as_str()) {
            return Err(text("MONGODB_DATABASE contains unsupported characters"));
        }
        let mongodb_uri = required(&values, "MONGODB_URI")?;
        let supabase_url = required(&values, "SUPABASE_URL")?;
        let supabase_anon_key = required(&values, "SUPABASE_ANON_KEY")?;
        let stripe_webhook_secret = required(&values, "STRIPE_WEBHOOK_SECRET")?;
        let web_success_url = required(&values, "WEB_SUCCESS_URL")?;
        let web_cancel_url = required(&values, "WEB_CANCEL_URL")?;
        let allowed_origin = required(&values, "ALLOWED_ORIGIN")?;
        Ok(
            Config {
                port,
                service_fee_bps,
                reservation_minutes,
                mongodb_uri,
                mongodb_database,
                supabase_url,
                supabase_anon_key,
                stripe_secret_key,
                stripe_webhook_secret,
                web_success_url,
                web_cancel_url,
                allowed_origin,
            },
        )
    }
}

/// An accepted configuration keeps the money and safety rules: the service
/// fee lies between 0 and 100%, inventory holds last a positive number of
/// minutes, only a Stripe test-mode key is used, and the database name holds
/// no character MongoDB refuses.
pub proof fn lemma_accepted_config_is_safe(values: Seq<(Seq<char>, Seq<char>)>, c: Config)
    requires
        config_problem(values) is None,
        config_matches(c, values),
    ensures
        0 <= c.service_fee_bps <= 10_000,
        c.reservation_minutes > 0,
        c.stripe_secret_key@.len() >= 8 && c.stripe_secret_key@.subrange(0, 8) == "sk_test_"@,
        forall|i: int| 0 <= i < c.mongodb_database@.len() ==> !unsupported_database_char(
            #[trigger] c.mongodb_database@[i],
        ),
{
}

} // verus!
