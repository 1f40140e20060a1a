pub mod ffmpeg;
pub mod playbin;
pub mod trtp;
pub mod wsc_rtp;

use crate::dart_types::StreamState;
use vstd::prelude::*;

verus! {

/// Requests sent to a decoding session.
#[derive(Debug, Clone, Copy, PartialEq, Eq, Structural)]
pub enum InputCommand {
    Terminate,
    Seek { ts: i64 },
    Resize { width: u32, height: u32 },
}

/// Notifications a decoding session sends to its output.
#[derive(Debug, Clone)]
pub enum InputEvent {
    FrameAvailable,
    State(StreamState),
}

} // verus!
