pub mod mongo;
pub mod stripe;
pub mod postgres_orders;
