//! The viewer's side of the control channel.

use vstd::prelude::*;

use super::viewer::{opt_peer, MediaPlayer};
use crate::net::addr::PeerId;
use crate::proto::control::{
    ControlRequest, ControlResponse, EncoderConfig, ImageConfig,
};

verus! {

broadcast use vstd::string::group_string_axioms;

/// How long to wait for an answer, in seconds.
pub const CONTROL_TIMEOUT_SECS: u64 = 5;

/// Why no request can be sent.
#[derive(Debug, Clone, Copy, PartialEq, Eq, Structural)]
pub enum SendControlError {
    /// No camera is connected.
    NotConnected,
}

/// The error in an answer, or else another text.
pub open spec fn failure_of(resp: ControlResponse, fallback: Seq<char>) -> Seq<char> {
    match resp.error {
        Some(e) => e@,
        None => fallback,
    }
}

/// The error in an answer, or else another text.
pub fn failure_text(resp: &ControlResponse, fallback: &str) -> (r: String)
    ensures
        r@ == failure_of(*resp, fallback@),
{
    match &resp.error {
        Some(e) => e.clone(),
        None => fallback.to_owned(),
    }
}

impl MediaPlayer {
    /// The peer to open a control stream to before a request is sent; none, where
    /// the stream is there already.
    pub fn send_control(&self, stream_open: bool) -> (r: Result<Option<PeerId>, SendControlError>)
        ensures
            stream_open ==> r matches Ok(None),
            !stream_open ==> match self@.camera {
                Some(camera) => r matches Ok(Some(p)) && p@ == camera,
                None => r matches Err(SendControlError::NotConnected),
            },
    {
        if stream_open {
            return Ok(None);
        }
        match &self.device_cam_peer_id {
            Some(p) => Ok(Some(p.clone())),
            None => Err(SendControlError::NotConnected),
        }
    }

    /// What an answer to [`ControlRequest::ListSnapshots`] gives: the names of the
    /// files.
    pub fn list_snapshots(resp: ControlResponse) -> (r: Result<Vec<String>, String>)
        ensures
            !resp.ok ==> (r matches Err(e) && e@ == failure_of(resp, "unknown error"@)),
            resp.ok ==> match resp.avi_files {
                Some(files) => r == Ok::<Vec<String>, String>(files),
                None => r matches Ok(files) && files@.len() == 0,
            },
    {
        if !resp.ok {
            return Err(failure_text(&resp, "unknown error"));
        }
        match resp.avi_files {
            Some(files) => Ok(files),
            None => Ok(Vec::new()),
        }
    }

    /// Asks for the encoder parameters of a stream.
    pub fn get_encoder_config_request(stream: &str) -> (r: ControlRequest)
        ensures
            r matches ControlRequest::GetEncoderConfig { stream: s } && s@ == stream@,
    {
        ControlRequest::GetEncoderConfig { stream: stream.to_owned() }
    }

    /// What the answer gives: the encoder parameters.
    pub fn get_encoder_config(resp: ControlResponse) -> (r: Result<EncoderConfig, String>)
        ensures
            !resp.ok ==> (r matches Err(e) && e@ == failure_of(resp, "unknown error"@)),
            resp.ok ==> match resp.encoder_config {
                Some(cfg) => r == Ok::<EncoderConfig, String>(cfg),
                None => r matches Err(e) && e@ == "control response missing encoder_config"@,
            },
    {
        if !resp.ok {
            return Err(failure_text(&resp, "unknown error"));
        }
        match resp.encoder_config {
            Some(cfg) => Ok(cfg),
            None => Err("control response missing encoder_config".to_owned()),
        }
    }

    /// Sets the encoder parameters of a stream.
    pub fn set_encoder_config_request(stream: &str, config: EncoderConfig) -> (r: ControlRequest)
        ensures
            r matches ControlRequest::SetEncoderConfig { stream: s, config: c } && s@ == stream@
                && c == config,
    {
        ControlRequest::SetEncoderConfig { stream: stream.to_owned(), config }
    }

    /// Whether the answer says that the parameters were set.
    pub fn set_encoder_config(resp: &ControlResponse) -> (r: Result<(), String>)
        ensures
            !resp.ok ==> (r matches Err(e) && e@ == failure_of(*resp, "unknown error"@)),
            resp.ok ==> r is Ok,
    {
        if !resp.ok {
            return Err(failure_text(resp, "unknown error"));
        }
        Ok(())
    }

    /// Asks for the image parameters of a camera.
    pub fn get_image_config_request(cam_id: u32) -> (r: ControlRequest)
        ensures
            r == (ControlRequest::GetImageConfig { cam_id }),
    {
        ControlRequest::GetImageConfig { cam_id }
    }

    /// What the answer gives: the image parameters.
    pub fn get_image_config(resp: ControlResponse) -> (r: Result<ImageConfig, String>)
        ensures
            !resp.ok ==> (r matches Err(e) && e@ == failure_of(resp, "unknown error"@)),
            resp.ok ==> match resp.image_config {
                Some(cfg) => r == Ok::<ImageConfig, String>(cfg),
                None => r matches Err(e) && e@ == "control response missing image_config"@,
            },
    {
        if !resp.ok {
            return Err(failure_text(&resp, "unknown error"));
        }
        match resp.image_config {
            Some(cfg) => Ok(cfg),
            None => Err("control response missing image_config".to_owned()),
        }
    }

    /// Sets the image parameters of a camera.
    pub fn set_image_config_request(cam_id: u32, config: ImageConfig) -> (r: ControlRequest)
        ensures
            r == (ControlRequest::SetImageConfig { cam_id, config }),
    {
        ControlRequest::SetImageConfig { cam_id, config }
    }

    /// Whether the answer says that the parameters were set.
    pub fn set_image_config(resp: &ControlResponse) -> (r: Result<(), String>)
        ensures
            !resp.ok ==> (r matches Err(e) && e@ == failure_of(*resp, "unknown error"@)),
            resp.ok ==> r is Ok,
    {
        if !resp.ok {
            return Err(failure_text(resp, "unknown error"));
        }
        Ok(())
    }

    /// Asks for a file; without a camera there is nothing to ask.
    pub fn download_file_request(&self, name: &str) -> (r: Result<ControlRequest, SendControlError>)
        ensures
            self@.camera is None ==> r matches Err(SendControlError::NotConnected),
            self@.camera is Some ==> (r matches Ok(ControlRequest::DownloadFile { name: n }) && n@
                == name@),
    {
        if self.device_cam_peer_id.is_none() {
            return Err(SendControlError::NotConnected);
        }
        Ok(ControlRequest::DownloadFile { name: name.to_owned() })
    }

    /// Begins to receive the file, if the answer does not refuse it.
    pub fn download_file(resp: &ControlResponse) -> (r: Result<Download, String>)
        ensures
            !resp.ok ==> (r matches Err(e) && e@ == failure_of(*resp, "download rejected"@)),
            resp.ok ==> r == Ok::<Download, String>(Download { total: 0, done: false }),
    {
        if !resp.ok {
            return Err(failure_text(resp, "download rejected"));
        }
        Ok(Download { total: 0, done: false })
    }
}

/// A file that is being received.
#[derive(Debug, Clone, Copy, PartialEq, Eq, Structural)]
pub struct Download {
    /// How many bytes have come.
    pub total: u64,
    pub done: bool,
}

/// The bytes of the frames up to the one that ends the file: an empty frame, or one
/// that could not be read.
pub open spec fn file_bytes(frames: Seq<Option<Seq<u8>>>) -> Seq<u8>
    decreases frames.len(),
{
    if frames.len() == 0 {
        seq![]
    } else {
        match frames[0] {
            Some(chunk) => if chunk.len() == 0 {
                seq![]
            } else {
                chunk + file_bytes(frames.skip(1))
            },
            None => seq![],
        }
    }
}

/// A file after one more frame, or the failure to read one.
pub open spec fn after_frame(d: Download, frame: Option<Seq<u8>>) -> Download {
    match frame {
        Some(chunk) => if chunk.len() == 0 {
            Download { done: true, ..d }
        } else {
            Download { total: (d.total + chunk.len()) as u64, ..d }
        },
        None => Download { done: true, ..d },
    }
}

/// A file after frames; what comes after its end does not count.
pub open spec fn after_frames(d: Download, frames: Seq<Option<Seq<u8>>>) -> Download
    decreases frames.len(),
{
    if d.done || frames.len() == 0 {
        d
    } else {
        after_frames(after_frame(d, frames[0]), frames.skip(1))
    }
}

impl Download {
    /// Takes in a frame, or the failure to read one, and tells whether to write it to
    /// the file.
    pub fn frame(&mut self, frame: Option<&[u8]>) -> (write: bool)
        requires
            frame matches Some(chunk) ==> old(self).total + chunk@.len() <= u64::MAX,
        ensures
            write == (frame matches Some(chunk) && chunk@.len() > 0),
            *final(self) == after_frame(
                *old(self),
                match frame {
                    Some(chunk) => Some(chunk@),
                    None => None,
                },
            ),
    {
        match frame {
            Some(chunk) => {
                if chunk.len() == 0 {
                    self.done = true;
                    return false;
                }
                self.total = self.total + chunk.len() as u64;
                true
            },
            None => {
                self.done = true;
                false
            },
        }
    }
}

/// The number of bytes that is reported is that of the frames before the one that
/// ends the file.
pub proof fn law_download_total(d: Download, frames: Seq<Option<Seq<u8>>>)
    requires
        !d.done,
        d.total + file_bytes(frames).len() <= u64::MAX,
    ensures
        after_frames(d, frames).total == d.total + file_bytes(frames).len(),
    decreases frames.len(),
{
    reveal_with_fuel(after_frames, 2);
    if frames.len() > 0 {
        if let Some(chunk) = frames[0] {
            if chunk.len() > 0 {
                law_download_total(after_frame(d, frames[0]), frames.skip(1));
            }
        }
    }
}

/// A file is received up to the first empty frame or the end of the stream: frames before
/// that are its bytes, in order, and nothing behind it is.
pub proof fn law_file_is_received(chunks: Seq<Seq<u8>>, end: Option<Seq<u8>>, rest: Seq<Option<Seq<u8>>>)
    requires
        forall|i: int| 0 <= i < chunks.len() ==> (#[trigger] chunks[i]).len() > 0,
        end matches Some(chunk) ==> chunk.len() == 0,
    ensures
        file_bytes(chunks.map_values(|c: Seq<u8>| Some(c)) + seq![end] + rest) == chunks.flatten(),
    decreases chunks.len(),
{
    let frames = chunks.map_values(|c: Seq<u8>| Some(c)) + seq![end] + rest;
    if chunks.len() == 0 {
        assert(frames[0] == end);
    } else {
        let tail = chunks.drop_first();
        assert forall|i: int| 0 <= i < tail.len() implies (#[trigger] tail[i]).len() > 0 by {
            assert(tail[i] == chunks[i + 1]);
        }
        law_file_is_received(tail, end, rest);
        assert(frames[0] == Some(chunks[0]));
        assert(chunks[0].len() > 0);
        assert(frames.skip(1) =~= tail.map_values(|c: Seq<u8>| Some(c)) + seq![end] + rest);
    }
}

/// The end of a file is told by an empty frame or the end of the stream and by nothing
/// else, and the bytes of every other frame are counted.
pub proof fn law_frames_are_counted(d: Download, frame: Option<Seq<u8>>)
    requires
        frame matches Some(chunk) ==> d.total + chunk.len() <= u64::MAX,
    ensures
        frame matches Some(chunk) ==> after_frame(d, frame).total == d.total + chunk.len(),
        frame is None ==> after_frame(d, frame).total == d.total,
        after_frame(d, frame).done <==> d.done || frame is None || frame->0.len() == 0,
{
}

/// A failure is told in the camera's own words, where it gives any.
pub proof fn law_failure_in_its_words(resp: ControlResponse, fallback: Seq<char>)
    ensures
        resp.error matches Some(e) ==> failure_of(resp, fallback) == e@,
        resp.error is None ==> failure_of(resp, fallback) == fallback,
{
}

} // verus!
