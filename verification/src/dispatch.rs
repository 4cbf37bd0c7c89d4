//! Static dispatch behind a small self-reporting trait.

use vstd::prelude::*;

verus! {

/// Something that can report itself as a plain integer.
pub trait Trait {
    /// The value this thing reports of itself.
    spec fn spec_value(&self) -> i64;

    /// Reports the value.
    fn method(&self) -> (v: i64)
        ensures
            v == self.spec_value(),
    ;
}

impl Trait for i32 {
    open spec fn spec_value(&self) -> i64 {
        *self as i64
    }

    fn method(&self) -> (v: i64)
        ensures
            v == self.spec_value(),
    {
        *self as i64
    }
}

/// A five, handed out behind the trait with the callee chosen at compile
/// time.
pub fn foo_static() -> (r: impl Trait + core::fmt::Debug)
    ensures
        r.spec_value() == 5,
{
    5i32
}

} // verus!
