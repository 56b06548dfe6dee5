pub mod adapters;
pub mod auth;
pub mod config;
pub mod cors;
pub mod demo;
pub mod domain;
pub mod http;
pub mod error;
pub mod ids;
pub mod ports;
pub mod runner_demo;
pub mod text;
pub mod timestamp;
