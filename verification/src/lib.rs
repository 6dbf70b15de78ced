//! Verified model of a virtio-mem device: block plug state, guest request
//! handling, the device configuration space and its byte layout, and the
//! state saved and restored across snapshots.

pub mod bitmap;

pub mod le;
pub mod config_space;
pub mod request;
pub mod error;
pub mod device;
pub mod persist;
pub mod api;
pub mod laws;
