//! A time span counted in seconds.

use vstd::prelude::*;

verus! {

/// A number of seconds.
#[derive(Debug, Clone, Copy)]
pub struct Second {
    value: i32,
}

impl View for Second {
    type V = int;

    closed spec fn view(&self) -> int {
        self.value as int
    }
}

impl Second {
    /// The given number of seconds.
    pub fn new(value: i32) -> (s: Second)
        ensures
            s@ == value as int,
    {
        Second { value }
    }

    /// The number of seconds as a plain integer.
    pub fn value(&self) -> (v: i32)
        ensures
            v as int == self@,
    {
        self.value
    }
}

impl Default for Second {
    /// Zero seconds.
    fn default() -> (s: Second)
        ensures
            s@ == 0,
    {
        Second { value: 0 }
    }
}

} // verus!
