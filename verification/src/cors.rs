//! The cross-origin policy of the production API.
use vstd::prelude::*;

verus! {

/// The HTTP methods that the web client may use across origins: reads,
/// creations, and the `PUT` that saves a listing's pricing.
pub fn allowed_methods() -> (methods: Vec<&'static str>)
    ensures
        methods@.len() == 3,
        methods@[0]@ == "GET"@,
        methods@[1]@ == "POST"@,
        methods@[2]@ == "PUT"@,
{
    vec!["GET", "POST", "PUT"]
}

} // verus!
