//! Workload model of a load generator for a web commerce API: bounded pools
//! of synthetic entities, the requests each scenario issues, and the ordered,
//! data-dependent steps of the cart-to-order checkout.

pub mod checkout;
pub mod data;
pub mod domain;
pub mod request;
pub mod scenario;
pub mod text;
