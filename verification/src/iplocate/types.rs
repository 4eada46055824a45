//! Input and output of the IP location workflow.

use vstd::prelude::*;

verus! {

/// Input for the IP location workflow
#[derive(Debug)]
pub struct WorkflowInput {
    pub name: String,
    /// How long to pause between the two lookups, in seconds.
    pub seconds: u64,
}

/// The mathematical value of a [`WorkflowInput`].
pub struct WorkflowInputView {
    pub name: Seq<char>,
    pub seconds: u64,
}

impl View for WorkflowInput {
    type V = WorkflowInputView;

    open spec fn view(&self) -> WorkflowInputView {
        WorkflowInputView { name: self.name@, seconds: self.seconds }
    }
}

impl Clone for WorkflowInput {
    fn clone(&self) -> (r: Self)
        ensures
            r@ == self@,
    {
        WorkflowInput { name: self.name.clone(), seconds: self.seconds }
    }
}

/// Output from the IP location workflow
#[derive(Debug)]
pub struct WorkflowOutput {
    pub ip_addr: String,
    pub location: String,
}

/// The mathematical value of a [`WorkflowOutput`].
pub struct WorkflowOutputView {
    pub ip_addr: Seq<char>,
    pub location: Seq<char>,
}

impl View for WorkflowOutput {
    type V = WorkflowOutputView;

    open spec fn view(&self) -> WorkflowOutputView {
        WorkflowOutputView { ip_addr: self.ip_addr@, location: self.location@ }
    }
}

impl Clone for WorkflowOutput {
    fn clone(&self) -> (r: Self)
        ensures
            r@ == self@,
    {
        WorkflowOutput { ip_addr: self.ip_addr.clone(), location: self.location.clone() }
    }
}

/// Task queue name for the IP location workflow
pub const TASK_QUEUE_NAME: &'static str = "ip-address-rust";

} // verus!
