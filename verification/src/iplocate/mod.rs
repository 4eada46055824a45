//! Looking up where the public IP address of the worker is.

pub mod activities;
pub mod types;
pub mod workflows;

// Re-export commonly used items
pub use activities::{get_ip, get_location_info};
pub use types::{WorkflowInput, WorkflowOutput, TASK_QUEUE_NAME};
pub use workflows::AddressFromIp;
