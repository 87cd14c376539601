//! A gateway that sends a file, in place of a camera, to viewers.

pub mod h265;
pub mod media_source;
pub mod session;
