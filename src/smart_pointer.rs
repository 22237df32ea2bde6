//! A box of one's own, and changing a value in place.
use vstd::prelude::*;

verus! {

/// A box around a single value.
#[derive(Debug)]
pub struct MyBox<T>(pub T);

impl<T> MyBox<T> {
    /// A box around `t`.
    pub fn new(t: T) -> (r: MyBox<T>)
        ensures
            r.0 == t,
    {
        MyBox(t)
    }

    /// The value inside.
    pub fn get(&self) -> (r: &T)
        ensures
            *r == self.0,
    {
        &self.0
    }
}

/// Adds one to `number` in place.
pub fn modify(number: &mut i32)
    requires
        *old(number) < i32::MAX,
    ensures
        *final(number) == *old(number) + 1,
{
    *number += 1;
}

} // verus!
