//! The viewer.

pub mod connect;
pub mod control_client;
pub mod jitter_buffer;
pub mod jni_bridge;
pub mod keyframe;
pub mod net_diag;
pub mod receiver;
pub mod registry_client;
pub mod stream_select;
pub mod viewer;
