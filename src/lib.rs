//! Acquisition, prioritisation, batching and fault escalation logic of an
//! environmental sensing node.

pub mod batch;
pub mod button;
pub mod channel;
pub mod item;
pub mod light;
pub mod link;
pub mod setup;
pub mod slow;
pub mod supervisor;
pub mod tracker;
