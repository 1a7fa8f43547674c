//! Generic pairs and points, and lifetime-annotated string selection.

use vstd::prelude::*;
use vstd::string::{StringExecFns, StrSliceExecFns};

verus! {

/// A point whose coordinates may have two different types.
pub struct Point2<T, U> {
    /// First coordinate.
    pub x: T,
    /// Second coordinate.
    pub y: U,
}

impl<T, U> Point2<T, U> {
    /// Combines this point's first coordinate with another point's second.
    pub fn mixup<V, W>(self, other: Point2<V, W>) -> (r: Point2<T, W>)
        ensures
            r.x == self.x,
            r.y == other.y,
    {
        Point2 { x: self.x, y: other.y }
    }
}

/// Two values of one type.
pub struct Pair<T> {
    /// First value.
    pub x: T,
    /// Second value.
    pub y: T,
}

impl<T> Pair<T> {
    /// Wraps two values into a pair.
    pub fn new(x: T, y: T) -> (p: Self)
        ensures
            p.x == x,
            p.y == y,
    {
        Self { x, y }
    }
}

/// The longer of two strings, measured in characters; ties go to the second.
pub fn longest<'a>(x: &'a str, y: &'a str) -> (r: &'a str)
    ensures
        r@ == if x@.len() > y@.len() {
            x@
        } else {
            y@
        },
{
    if x.unicode_len() > y.unicode_len() {
        x
    } else {
        y
    }
}

/// Always the first of its two arguments.
pub fn longest2<'a>(x: &'a str, y: &str) -> (r: &'a str)
    ensures
        r@ == x@,
{
    let _ = y;
    x
}

/// An owned string, independent of both arguments.
pub fn longest3(x: &str, y: &str) -> (r: String)
    ensures
        r@ == "really long string"@,
{
    let _ = x;
    let _ = y;
    let result = String::from_str("really long string");
    result
}

/// An excerpt borrowed from a longer text.
pub struct ImportantExcerpt<'a> {
    /// The borrowed passage.
    pub part: &'a str,
}

impl<'a> ImportantExcerpt<'a> {
    /// The excerpt's fixed importance level.
    pub fn level(&self) -> (r: i32)
        ensures
            r == 3,
    {
        3
    }
}

} // verus!
