pub mod choreofs;
pub mod device;
pub mod fd_object;
pub mod features;
pub mod guest_ledger;
pub mod metrics;
pub mod mgmt;
pub mod network;
pub mod policy;
pub mod remote;
pub mod resolver;
pub mod state;
pub mod swarm;
pub mod transaction;
pub mod wasi;
