//! Chaining a fallible recovery function onto a `Result`'s error.

use vstd::prelude::*;

verus! {

/// Maps a `Result`'s error through a function that may recover (returning
/// `Ok`) or fail with another error. Useful where some error values are
/// ignorable and map to a success value while the rest stay fatal.
pub trait FlatMapErr<T, D, E>: Sized {
    /// The receiver, seen as the `Result` it stands for.
    spec fn result_view(self) -> Result<T, D>;

    /// Returns `Ok(t)` unchanged, and otherwise whatever `f` returns for
    /// the error value.
    fn flat_map_err<F: FnOnce(D) -> Result<T, E>>(self, f: F) -> (r: Result<T, E>)
        requires
            self.result_view() matches Err(d) ==> call_requires(f, (d,)),
        ensures
            self.result_view() matches Ok(t) ==> r == Result::<T, E>::Ok(t),
            self.result_view() matches Err(d) ==> call_ensures(f, (d,), r),
    ;
}

impl<T, D, E> FlatMapErr<T, D, E> for Result<T, D> {
    open spec fn result_view(self) -> Result<T, D> {
        self
    }

    fn flat_map_err<F: FnOnce(D) -> Result<T, E>>(self, f: F) -> (r: Result<T, E>) {
        match self {
            Ok(t) => Ok(t),
            Err(d) => f(d),
        }
    }
}

} // verus!
