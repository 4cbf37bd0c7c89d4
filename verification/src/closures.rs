//! Functions that build and hand back other functions.

use vstd::prelude::*;

verus! {

/// A function that adds `n` to its argument.
pub fn make_adder(n: i32) -> (f: impl Fn(i32) -> i32)
    ensures
        forall|x: i32| i32::MIN <= x + n <= i32::MAX ==> f.requires((x,)),
        forall|x: i32, y: i32| f.ensures((x,), y) ==> y == x + n,
{
    move |x: i32| -> (r: i32)
        requires
            i32::MIN <= x + n <= i32::MAX,
        ensures
            r == x + n,
        { x + n }
}

/// A function that adds `n` to its argument, built a second way.
pub fn make_adder_again(n: i32) -> (f: impl Fn(i32) -> i32)
    ensures
        forall|x: i32| i32::MIN <= x + n <= i32::MAX ==> f.requires((x,)),
        forall|x: i32, y: i32| f.ensures((x,), y) ==> y == x + n,
{
    move |x: i32| -> (r: i32)
        requires
            i32::MIN <= x + n <= i32::MAX,
        ensures
            r == x + n,
        { x + n }
}

/// A function that adds one to its argument.
pub fn inc_dynamic() -> (f: impl Fn(i32) -> i32)
    ensures
        forall|x: i32| x < i32::MAX ==> f.requires((x,)),
        forall|x: i32, y: i32| f.ensures((x,), y) ==> y == x + 1,
{
    |x: i32| -> (r: i32)
        requires
            x < i32::MAX,
        ensures
            r == x + 1,
        { x + 1 }
}

/// A function that adds one to its argument, with the callee chosen at
/// compile time.
pub fn inc_static() -> (f: impl Fn(i32) -> i32)
    ensures
        forall|x: i32| x < i32::MAX ==> f.requires((x,)),
        forall|x: i32, y: i32| f.ensures((x,), y) ==> y == x + 1,
{
    |x: i32| -> (r: i32)
        requires
            x < i32::MAX,
        ensures
            r == x + 1,
        { x + 1 }
}

/// The elements of `s` bumped by one each, keeping only the even results.
pub open spec fn bumped_evens(s: Seq<i32>) -> Seq<i32>
    decreases s.len(),
{
    if s.len() == 0 {
        Seq::empty()
    } else {
        let rest = bumped_evens(s.drop_last());
        let bumped = s.last() + 1;
        if bumped % 2 == 0 {
            rest.push(bumped as i32)
        } else {
            rest
        }
    }
}

/// Bumps one through five by one each and keeps the even results:
/// two, four and six.
pub fn bar_static() -> (v: Vec<i32>)
    ensures
        v@ == seq![2i32, 4i32, 6i32],
{
    let input = vec![1i32, 2i32, 3i32, 4i32, 5i32];
    let mut v: Vec<i32> = Vec::new();
    let mut i: usize = 0;
    while i < input.len()
        invariant
            input@ == seq![1i32, 2i32, 3i32, 4i32, 5i32],
            0 <= i <= input@.len(),
            v@ == bumped_evens(input@.take(i as int)),
        decreases input@.len() - i,
    {
        let bumped = input[i] + 1;
        if bumped % 2 == 0 {
            v.push(bumped);
        }
        proof {
            assert(input@.take(i + 1).drop_last() =~= input@.take(i as int));
        }
        i += 1;
    }
    proof {
        assert(input@.take(5) =~= input@);
        reveal_with_fuel(bumped_evens, 6);
        assert(v@ =~= seq![2i32, 4i32, 6i32]);
    }
    v
}

} // verus!
