pub mod order_repository;
pub mod payment_gateway;
pub mod profile_repository;
pub mod payment_steps;
