//! Owning wrappers: a single-value box and a string holder whose loan
//! consumes it.

use vstd::prelude::*;

verus! {

/// A wrapper that owns one value.
pub struct MyBox<T>(pub T);

impl<T> MyBox<T> {
    /// Wraps a value.
    pub fn new(x: T) -> (b: MyBox<T>)
        ensures
            b.0 == x,
    {
        MyBox(x)
    }
}

/// A named owner of a piece of text.
pub struct CustomSmartPointer {
    /// The owned text.
    pub data: String,
}

/// Takes ownership of the pointer; the value is dropped when this call
/// returns.
pub fn loan(spd: CustomSmartPointer) {
    let _ = spd;
}

} // verus!
