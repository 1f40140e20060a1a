//! State and decisions of the texture video sink element: the window size it
//! is told about, when it asks upstream to renegotiate, and what it does
//! with each buffer it is handed.
use vstd::prelude::*;

verus! {

/// The size of the widget the sink renders into, and whether it changed
/// since the sink last asked upstream to renegotiate.
pub struct WindowSettings {
    pub window_width: u32,
    pub window_height: u32,
    pub window_resized: bool,
}

impl WindowSettings {
    /// No size told yet.
    pub fn new() -> (s: Self)
        ensures
            s.window_width == 0,
            s.window_height == 0,
            !s.window_resized,
    {
        WindowSettings { window_width: 0, window_height: 0, window_resized: false }
    }

    /// Sets the width; a width other than the current one marks the window
    /// resized.
    pub fn set_window_width(&mut self, value: u32)
        ensures
            final(self).window_width == value,
            final(self).window_height == old(self).window_height,
            final(self).window_resized == (old(self).window_resized || old(self).window_width != value),
    {
        if self.window_width != value {
            self.window_resized = true;
        }
        self.window_width = value;
    }

    /// Sets the height; a height other than the current one marks the
    /// window resized.
    pub fn set_window_height(&mut self, value: u32)
        ensures
            final(self).window_height == value,
            final(self).window_width == old(self).window_width,
            final(self).window_resized == (old(self).window_resized || old(self).window_height != value),
    {
        if self.window_height != value {
            self.window_resized = true;
        }
        self.window_height = value;
    }

    /// Reads and clears the resized mark: the sink asks for renegotiation
    /// once per change.
    pub fn take_resized(&mut self) -> (r: bool)
        ensures
            r == old(self).window_resized,
            !final(self).window_resized,
            final(self).window_width == old(self).window_width,
            final(self).window_height == old(self).window_height,
    {
        let r = self.window_resized;
        self.window_resized = false;
        r
    }
}

/// What the sink does with a buffer it is asked to show.
#[derive(Debug, Clone, Copy, PartialEq, Eq, Structural)]
pub enum ShowFrameStep {
    /// The buffer holds no memory: nothing to render, success.
    Empty,
    /// No caps were negotiated yet: the buffer cannot be read.
    NotNegotiated,
    /// The buffer is not RGBA: convert the current sample first.
    Convert,
    /// Render the buffer as it is.
    Render,
}

/// The step for a buffer of `n_memory` memory blocks, given whether caps
/// were negotiated and whether they say RGBA.
pub fn show_frame_step(n_memory: usize, has_info: bool, is_rgba: bool) -> (r: ShowFrameStep)
    ensures
        n_memory == 0 ==> r == ShowFrameStep::Empty,
        n_memory > 0 && !has_info ==> r == ShowFrameStep::NotNegotiated,
        n_memory > 0 && has_info && !is_rgba ==> r == ShowFrameStep::Convert,
        n_memory > 0 && has_info && is_rgba ==> r == ShowFrameStep::Render,
{
    if n_memory == 0 {
        ShowFrameStep::Empty
    } else if !has_info {
        ShowFrameStep::NotNegotiated
    } else if !is_rgba {
        ShowFrameStep::Convert
    } else {
        ShowFrameStep::Render
    }
}

/// How handing a frame to the UI thread's queue went.
#[derive(Debug, Clone, Copy, PartialEq, Eq, Structural)]
pub enum FrameSend {
    Sent,
    QueueFull,
    Disconnected,
}

/// What the sink reports upstream for a shown frame.
#[derive(Debug, Clone, Copy, PartialEq, Eq, Structural)]
pub enum SinkFlow {
    Proceed,
    Flushing,
}

/// A full queue drops the frame and goes on; a closed queue stops the flow.
pub fn flow_after_send(sent: FrameSend) -> (r: SinkFlow)
    ensures
        r == (if sent == FrameSend::Disconnected { SinkFlow::Flushing } else { SinkFlow::Proceed }),
{
    match sent {
        FrameSend::Disconnected => SinkFlow::Flushing,
        _ => SinkFlow::Proceed,
    }
}

} // verus!
