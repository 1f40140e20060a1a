use vstd::prelude::*;

verus! {

/// Turns a fallible result into an optional value, discarding the error.
pub trait LogErr<T>: Sized {
    fn log_err(self) -> Option<T>;
}

impl<T, E> LogErr<T> for Result<T, E> {
    fn log_err(self) -> (r: Option<T>)
        ensures
            r == self.ok(),
    {
        match self {
            Ok(value) => Some(value),
            Err(_) => None,
        }
    }
}

} // verus!
