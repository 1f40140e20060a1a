pub mod flutter;
pub mod payload;

use vstd::prelude::*;

verus! {

/// A texture that a producer of frames can poke: it is told when a new frame
/// is ready and when it is no longer needed.
pub trait FlutterTextureSession {
    fn mark_frame_available(&self);

    fn terminate(&self);
}

} // verus!
