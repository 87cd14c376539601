//! Names of the stream protocols.

use vstd::prelude::*;

verus! {

/// Main stream: high definition H.264 or H.265 in media packets.
pub const VIDEO_MAIN_PROTOCOL: &'static str = "/p2p-camera/video/main/1.0.0";

/// Sub stream: standard definition at a low bit rate.
pub const VIDEO_SUB_PROTOCOL: &'static str = "/p2p-camera/video/sub/1.0.0";

/// Third stream: medium definition.
pub const VIDEO_THIRD_PROTOCOL: &'static str = "/p2p-camera/video/third/1.0.0";

/// Audio in media packets.
pub const AUDIO_PROTOCOL: &'static str = "/p2p-camera/audio/1.0.0";

/// Control channel: requests and responses in frames.
pub const CONTROL_PROTOCOL: &'static str = "/p2p-camera/control/1.0.0";

/// File download: large files in chunks, apart from the control channel.
pub const FILE_PROTOCOL: &'static str = "/p2p-camera/file/1.0.0";

} // verus!
