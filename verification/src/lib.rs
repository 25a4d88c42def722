//! Challenge-response authentication with an optional second factor.

pub mod action;
pub mod bytes;
pub mod client;
pub mod communication_types;
pub mod crypto;
pub mod laws;
pub mod server;
pub mod user;
pub mod validations;
