//! A state with a guarded transition that moves its data instead of
//! cloning it.

use vstd::prelude::*;

verus! {

/// A state that either carries a name and a number, only a name, or
/// nothing at all.
#[derive(Debug)]
pub enum Foo {
    A { name: String, x: i32 },
    B { name: String },
    C,
    D,
}

/// Turns `A` into `B` when its number is zero, keeping the name; leaves
/// every other value unchanged.
pub fn a_to_b(var: &mut Foo)
    ensures
        match *old(var) {
            Foo::A { name, x } => if x == 0 {
                *final(var) == (Foo::B { name })
            } else {
                *final(var) == *old(var)
            },
            _ => *final(var) == *old(var),
        },
{
    let mut taken = Foo::C;
    core::mem::swap(&mut taken, var);
    match taken {
        Foo::A { name, x } => {
            if x == 0 {
                *var = Foo::B { name };
            } else {
                *var = Foo::A { name, x };
            }
        },
        other => {
            *var = other;
        },
    }
}

} // verus!
