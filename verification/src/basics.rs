//! Small standalone functions: constants, successor functions, applying a
//! function value twice, and an associated-function naming example.

use vstd::prelude::*;
use vstd::string::StringExecFns;

verus! {

/// Returns five.
pub fn five() -> (r: i32)
    ensures
        r == 5,
{
    5
}

/// Returns its argument plus one.
#[allow(non_snake_case)]
pub fn nToStr(i: i32) -> (r: i32)
    requires
        i + 1 <= i32::MAX,
    ensures
        r == i + 1,
{
    i + 1
}

/// Returns its argument plus one.
pub fn add_one(x: i32) -> (r: i32)
    requires
        x + 1 <= i32::MAX,
    ensures
        r == x + 1,
{
    x + 1
}

/// Applies `f` to `arg` twice and adds the results.
pub fn do_twice<F: Fn(i32) -> i32>(f: F, arg: i32) -> (r: i32)
    requires
        call_requires(f, (arg,)),
        forall|y1: i32, y2: i32|
            call_ensures(f, (arg,), y1) && call_ensures(f, (arg,), y2) ==> i32::MIN <= y1 + y2
                <= i32::MAX,
    ensures
        exists|y1: i32, y2: i32|
            {
                &&& #[trigger] call_ensures(f, (arg,), y1)
                &&& #[trigger] call_ensures(f, (arg,), y2)
                &&& r == y1 + y2
            },
{
    let a = f(arg);
    let b = f(arg);
    a + b
}

/// Splits a mutable slice into its first `mid` elements and the rest; the
/// two halves together make up the whole slice. Asking for more elements
/// than the slice holds is a caller error, excluded here.
pub fn split_at_mut2(slice: &mut [i32], mid: usize) -> (r: (&mut [i32], &mut [i32]))
    requires
        mid <= old(slice)@.len(),
    ensures
        r.0@ == old(slice)@.subrange(0, mid as int),
        r.1@ == old(slice)@.subrange(mid as int, old(slice)@.len() as int),
        final(slice)@ == final(r.0)@ + final(r.1)@,
{
    slice.split_at_mut(mid)
}

/// Animals name their offspring.
pub trait Animal {
    /// The generic name of this animal's young.
    fn baby_name() -> String;
}

/// A dog, whose keepers call it by a proper name.
pub struct Dog;

impl Dog {
    /// The name the keepers gave this dog's puppy.
    pub fn baby_name() -> (r: String)
        ensures
            r@ == "Spot"@,
    {
        String::from_str("Spot")
    }
}

impl Animal for Dog {
    fn baby_name() -> String {
        String::from_str("puppy")
    }
}

} // verus!
