use vstd::prelude::*;

verus! {

/// Playback state reported to the UI for one session.
#[derive(Debug, Clone)]
pub enum StreamState {
    Error(String),
    Loading,
    Playing { texture_id: i64, seekable: bool },
    Stopped,
}

} // verus!
