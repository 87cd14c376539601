//! What travels between the camera, the relay and the viewer.

pub mod control;
pub mod media_packet;
pub mod registry;
pub mod registry_reader;
pub mod stream_protocols;
