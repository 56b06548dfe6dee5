pub mod billing;
pub mod order_state;
pub mod pricing;
pub mod quote;
pub mod runner;
