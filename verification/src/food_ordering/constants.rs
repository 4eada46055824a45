//! Names under which the order workflow is registered and addressed.

use vstd::prelude::*;

verus! {

/// The task queue of the order workflow.
pub const ORDER_FOOD_TASK_QUEUE: &'static str = "order-food";

/// Names of the queries of an order.
pub struct Queries;

impl Queries {
    pub const GET_STATUS: &'static str = "GET_STATUS";
}

/// Names of the signals of an order.
pub struct Signals;

impl Signals {
    pub const CHECKOUT: &'static str = "CHECKOUT";
}

/// Names of the updates of an order.
pub struct Updates;

impl Updates {
    pub const ADD_ITEM: &'static str = "ADD_ITEM";

    pub const REMOVE_ITEM: &'static str = "REMOVE_ITEM";

    pub const UPDATE_STATUS: &'static str = "UPDATE_STATUS";
}

} // verus!
