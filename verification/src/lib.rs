//! An authorization-gated registry of relations, devices and taboo foods.

mod bytes;
pub mod origin;
pub mod person;
pub mod log;
pub mod health_ai;
pub mod sign_data;
pub mod history;
