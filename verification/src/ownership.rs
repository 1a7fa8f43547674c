//! Functions that move, borrow and build strings, each with an exact
//! contract over the character sequences involved.

use vstd::prelude::*;
use vstd::string::{StringExecFns, StrSliceExecFns};
use crate::strings::first_index_of;

verus! {

/// A greeting for `name`.
pub fn greeting(name: &str) -> (r: String)
    ensures
        r@ == "Hello "@ + name@ + "!"@,
{
    let mut r = String::from_str("Hello ");
    r.append(name);
    r.append("!");
    r
}

/// Exercises `add_two` once.
pub fn demo() {
    let _ = crate::add_two(90);
}

/// Builds an owned greeting; the value moves out to the caller, so nothing
/// dangles.
pub fn dangle() -> (s: String)
    ensures
        s@ == "hello"@,
{
    let s = String::from_str("hello");
    s
}

/// Appends `", world"` to the borrowed string.
pub fn change(some_string: &mut String)
    ensures
        final(some_string)@ == old(some_string)@ + ", world"@,
{
    some_string.append(", world");
}

/// Length, in characters, of a borrowed string.
pub fn calculate_length_by_borrowing(s: &String) -> (l: usize)
    ensures
        l == s@.len(),
{
    s.as_str().unicode_len()
}

/// Takes ownership of a string and hands it back together with its length in
/// characters.
pub fn calculate_length(s: String) -> (r: (String, usize))
    ensures
        r.0 == s,
        r.1 == s@.len(),
{
    let length = s.as_str().unicode_len();
    (s, length)
}

/// Builds a string and moves it out to the caller.
pub fn gives_ownership() -> (s: String)
    ensures
        s@ == "hello"@,
{
    let some_string = String::from_str("hello");
    some_string
}

/// Takes a string and returns the very same one.
pub fn takes_and_gives_back(a_string: String) -> (r: String)
    ensures
        r == a_string,
{
    a_string
}

/// The first word of `s`: everything before the first space, or all of `s`
/// when it holds no space.
pub fn first_word(s: &str) -> (w: &str)
    ensures
        w@ == s@.subrange(0, first_index_of(s@, ' ')),
{
    let len = s.unicode_len();
    let mut i: usize = 0;
    while i < len
        invariant
            len == s@.len(),
            i <= len,
            forall|k: int| 0 <= k < i ==> s@[k] != ' ',
        decreases len - i,
    {
        if s.get_char(i) == ' ' {
            proof {
                crate::strings::lemma_first_index_of_is(s@, ' ', i as int);
            }
            return s.substring_char(0, i);
        }
        i = i + 1;
    }
    proof {
        crate::strings::lemma_first_index_of_is(s@, ' ', len as int);
        assert(s@.subrange(0, len as int) =~= s@);
    }
    s
}

} // verus!
