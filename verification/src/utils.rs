use vstd::prelude::*;

verus! {

/// Return code of a plugin registration entry point: 1 means success.
pub type GstBool = i32;

/// Whether a plugin registration entry point reported success.
pub fn is_gst_result_ok(result: GstBool) -> (ok: bool)
    ensures
        ok == (result == 1),
{
    result == 1
}

/// Turns a fallible result into an optional value, discarding the error.
pub trait LogErr<T>: Sized {
    fn log_err(self) -> Option<T>;
}

impl<T, E> LogErr<T> for Result<T, E> {
    fn log_err(self) -> (r: Option<T>)
        ensures
            r == self.ok(),
    {
        match self {
            Ok(value) => Some(value),
            Err(_) => None,
        }
    }
}

} // verus!
