//! The camera.

pub mod config;
pub mod control_handler;
pub mod net_diag;
pub mod node;
pub mod params;
pub mod relay_link;
pub mod rk_video_source;
pub mod uds_server;
pub mod video_sender;
