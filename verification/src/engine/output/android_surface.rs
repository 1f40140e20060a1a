//! Decisions of the surface-backed video output: when the surface's buffer
//! size is set and when a size change is reported.
use vstd::prelude::*;

verus! {

/// The surface's buffer size is only set for a non-empty size.
pub fn set_video_size(width: u32, height: u32) -> (apply: bool)
    ensures
        apply == (width != 0 && height != 0),
{
    width != 0 && height != 0
}

/// Takes the size announced by new caps and reports whether it differs from
/// the last one seen, remembering it.
pub fn install_video_size_watch(last_size: &mut Option<(u32, u32)>, width: u32, height: u32) -> (changed: bool)
    ensures
        changed == (*old(last_size) != Some((width, height))),
        *final(last_size) == Some((width, height)),
{
    let changed = match *last_size {
        Some((w, h)) => w != width || h != height,
        None => true,
    };
    *last_size = Some((width, height));
    changed
}

} // verus!
