//! Verified logic of a peer-to-peer camera system.

pub mod be_bytes;
pub mod byte_buf;
pub mod cam_test;
pub mod device_cam;
pub mod gateway;
pub mod json;
pub mod mobile_core;
pub mod net;
pub mod proto;
pub mod relay_server;
pub mod sorting;
pub mod text;
pub mod text_map;
