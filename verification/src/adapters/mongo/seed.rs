//! The fictional catalog a fresh database is seeded with.
use vstd::prelude::*;

verus! {

/// The owner of every fictional listing.
pub const FICTIONAL_OWNER_ID: &'static str = "11111111-1111-4111-8111-111111111111";

/// The fictional console rental.
pub const FICTIONAL_RENTAL_ID: &'static str = "22222222-2222-4222-8222-222222222221";

/// The fictional photo studio.
pub const FICTIONAL_WORKSPACE_ID: &'static str = "22222222-2222-4222-8222-222222222222";

/// The fictional second-hand monitor.
pub const FICTIONAL_SECOND_HAND_ID: &'static str = "22222222-2222-4222-8222-222222222223";

/// How many listings a seeding wrote.
#[derive(Debug, Clone, Copy)]
pub struct SeedReport {
    pub listings: u64,
}

} // verus!
