//! The decisions behind the HTTP API: how requests are read and checked, and
//! which answer each failure gets.
pub mod auth_extract;
pub mod health;
pub mod orders;
pub mod pricing;
pub mod profile;
pub mod quotes;
pub mod stripe_webhook;
