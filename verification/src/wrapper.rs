//! A transparent wrapper around a single value.

use vstd::prelude::*;

verus! {

/// A value in a box of its own.
#[derive(Debug)]
pub struct Wrapper<T> {
    pub inner: T,
}

impl<T> Wrapper<T> {
    /// Wraps the given value.
    pub fn new(inner: T) -> (w: Wrapper<T>)
        ensures
            w.inner == inner,
    {
        Wrapper { inner }
    }
}

} // verus!
