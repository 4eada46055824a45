//! The daily batch of scheduled payments.

pub mod activities;
pub mod data;
pub mod workflows;
