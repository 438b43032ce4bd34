//! The host port: fixed-capacity frame queues that carry choreography frames between roles.
pub mod host_queue;
