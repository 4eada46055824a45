//! The order aggregate: cart, status and the checkout flow.

pub mod cart;
pub mod constants;
pub mod types;
pub mod workflows;
