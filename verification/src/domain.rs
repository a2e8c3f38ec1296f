//! Payloads exchanged with the commerce API.

pub mod cart;
pub mod common;
