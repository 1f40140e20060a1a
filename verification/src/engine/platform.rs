use vstd::prelude::*;

verus! {

/// Conversion backends of the Direct3D 11 converter.
#[allow(non_camel_case_types)]
#[derive(Debug, Clone, Copy, PartialEq, Eq, Structural)]
pub enum GstD3D11ConverterBackend {
    GST_D3D11_CONVERTER_BACKEND_SHADER,
    GST_D3D11_CONVERTER_BACKEND_VIDEO_PROCESSOR,
}

impl GstD3D11ConverterBackend {
    /// The backend's bit in the converter's backend flags.
    pub fn flag(self) -> (r: u32)
        ensures
            self is GST_D3D11_CONVERTER_BACKEND_SHADER ==> r == 1,
            self is GST_D3D11_CONVERTER_BACKEND_VIDEO_PROCESSOR ==> r == 2,
    {
        match self {
            GstD3D11ConverterBackend::GST_D3D11_CONVERTER_BACKEND_SHADER => 1,
            GstD3D11ConverterBackend::GST_D3D11_CONVERTER_BACKEND_VIDEO_PROCESSOR => 2,
        }
    }
}

/// What the Direct3D decoding engine does with a new sample from its sink.
#[derive(Debug, Clone, Copy, PartialEq, Eq, Structural)]
pub enum SampleAction {
    /// No sample was kept before: only tell the listener a frame came.
    Notify,
    /// The caps changed: build a converter for them, keep the sample, copy
    /// it into the shared texture, then tell the listener.
    Reconvert,
    /// Same caps as the kept sample: nothing to do, and no notification.
    Skip,
}

/// The action for a new sample, given whether a sample is kept and whether
/// the new one's caps differ from the kept one's.
pub fn new_sample_action(has_last_sample: bool, caps_changed: bool) -> (r: SampleAction)
    ensures
        !has_last_sample ==> r == SampleAction::Notify,
        has_last_sample && caps_changed ==> r == SampleAction::Reconvert,
        has_last_sample && !caps_changed ==> r == SampleAction::Skip,
{
    if !has_last_sample {
        SampleAction::Notify
    } else if caps_changed {
        SampleAction::Reconvert
    } else {
        SampleAction::Skip
    }
}

} // verus!
