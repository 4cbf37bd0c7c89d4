//! A person with a name and an age.

use vstd::prelude::*;

verus! {

/// Someone with a name and an age in years.
#[derive(Debug)]
pub struct Person {
    pub name: String,
    pub age: u16,
}

impl Person {
    /// A person from a name and an age.
    pub fn new(name: &str, age: u16) -> (p: Person)
        ensures
            p.name@ == name@,
            p.age == age,
    {
        Person { name: name.to_owned(), age }
    }
}

/// Ages a person by one year.
pub fn birthday(p: &mut Person)
    requires
        old(p).age < u16::MAX,
    ensures
        final(p).age == old(p).age + 1,
        final(p).name@ == old(p).name@,
{
    p.age = p.age + 1;
}

} // verus!
