//! Commands from other programs on the camera, over a local socket:
//!
//! ```text
//! {"cmd":"snapshot"}         take a picture
//! {"cmd":"compose","fps":N}  make a video of the pictures
//! ```

use vstd::prelude::*;

use super::control_handler::NOT_AVAILABLE;
use crate::text::str_eq;

verus! {

broadcast use vstd::string::group_string_axioms;

/// The socket.
pub const SOCK_PATH: &'static str = "/tmp/cam_ctrl.sock";

/// How many bytes of a command are read.
pub const MAX_COMMAND_LEN: usize = 4096;

/// The frame rate of a video where none is given.
pub const DEFAULT_COMPOSE_FPS: u32 = 5;

/// A command.
#[derive(Debug)]
pub struct UdsCommand {
    pub cmd: String,
    pub fps: Option<u32>,
}

/// What to do about a command.
#[derive(Debug)]
pub enum UdsAction {
    /// Take a picture, then answer with [`command_reply`].
    TakeSnapshot,
    /// Make a video of the pictures, then answer with [`command_reply`].
    ComposeVideo { fps: u32 },
    /// Send the answer.
    Reply(String),
}

/// The answer that something failed.
pub open spec fn error_line(text: Seq<char>) -> Seq<char> {
    "{\"ok\":false,\"error\":\""@ + text + "\"}\n"@
}

/// The answer that a file was made.
pub open spec fn file_line(file: Seq<char>) -> Seq<char> {
    "{\"ok\":true,\"file\":\""@ + file + "\"}\n"@
}

/// The answer that something failed.
pub fn error_reply(text: &str) -> (r: String)
    ensures
        r@ == error_line(text@),
{
    let mut s = "{\"ok\":false,\"error\":\"".to_owned();
    s.append(text);
    s.append("\"}\n");
    s
}

/// The answer to a command that was carried out: the file that it made, or why it
/// did not.
pub fn command_reply(result: Result<String, String>) -> (r: String)
    ensures
        r@ == match result {
            Ok(file) => file_line(file@),
            Err(e) => error_line(e@),
        },
{
    match result {
        Ok(file) => {
            let mut s = "{\"ok\":true,\"file\":\"".to_owned();
            s.append(file.as_str());
            s.append("\"}\n");
            s
        },
        Err(e) => error_reply(e.as_str()),
    }
}

/// What to do about a command. Without camera hardware neither command can be
/// carried out.
pub fn dispatch(cmd: &UdsCommand, hardware: bool) -> (r: UdsAction)
    ensures
        if cmd.cmd@ == "snapshot"@ || cmd.cmd@ == "compose"@ {
            if !hardware {
                r matches UdsAction::Reply(t) && t@ == error_line(NOT_AVAILABLE@)
            } else if cmd.cmd@ == "snapshot"@ {
                r == UdsAction::TakeSnapshot
            } else {
                r == (UdsAction::ComposeVideo {
                    fps: match cmd.fps {
                        Some(n) => n,
                        None => DEFAULT_COMPOSE_FPS,
                    },
                })
            }
        } else {
            r matches UdsAction::Reply(t) && t@ == error_line("unknown cmd: "@ + cmd.cmd@)
        },
{
    let snapshot = str_eq(cmd.cmd.as_str(), "snapshot");
    let compose = str_eq(cmd.cmd.as_str(), "compose");
    if !snapshot && !compose {
        let mut s = "unknown cmd: ".to_owned();
        s.append(cmd.cmd.as_str());
        return UdsAction::Reply(error_reply(s.as_str()));
    }
    if !hardware {
        return UdsAction::Reply(error_reply(NOT_AVAILABLE));
    }
    if snapshot {
        UdsAction::TakeSnapshot
    } else {
        UdsAction::ComposeVideo {
            fps: match cmd.fps {
                Some(n) => n,
                None => DEFAULT_COMPOSE_FPS,
            },
        }
    }
}

/// An answer on the local socket is one line of JSON that says whether it is good; one
/// with a file names the file, one with an error the error.
pub proof fn law_answer_lines(text: Seq<char>)
    ensures
        error_line(text) == "{\"ok\":false,\"error\":\""@ + text + "\"}\n"@,
        file_line(text) == "{\"ok\":true,\"file\":\""@ + text + "\"}\n"@,
        error_line(text).last() == '\n',
        file_line(text).last() == '\n',
{
    reveal_strlit("\"}\n");
}

} // verus!
