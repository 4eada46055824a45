//! Orchestration logic for durable workflows: an order aggregate driven by
//! commands and activity results, a daily batch of scheduled payments fanned
//! out to one sub-workflow per payment, and an address lookup by IP.
//!
//! Every workflow is a state machine from `(state, event)` to
//! `(state, action)`; a host performs the actions against its runtime and
//! feeds the results back as events.

pub mod text;
pub mod clock;
pub mod ids;
pub mod runtime;
pub mod schedule_payments;
pub mod food_ordering;
pub mod iplocate;
pub mod payload;
