//! Verified core of a realtime video player: session bookkeeping, frame
//! buffers, HLS timeline arithmetic, SDP handling and the decision logic of
//! the streaming loops.

pub mod api;
pub mod dart_types;
pub mod engine;
pub mod text;
pub mod utils;
