//! A transparent wrapper around a value.
use vstd::prelude::*;

verus! {

/// Holds a value and dereferences to it.
#[derive(Debug, Clone)]
pub struct Wrapper<T>(pub T);

impl<T> core::ops::Deref for Wrapper<T> {
    type Target = T;

    fn deref(&self) -> (r: &T)
        ensures
            *r == self.0,
    {
        &self.0
    }
}

} // verus!
