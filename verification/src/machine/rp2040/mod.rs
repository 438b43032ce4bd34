//! The RP2040: its boards, the inter-core FIFO frame packing and the alarm readiness record.
pub mod baker_link;
pub mod sio;
pub mod timer;
