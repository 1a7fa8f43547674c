//! A library of verified components, centred on a bounded worker pool with
//! graceful shutdown: a dispatcher hands jobs to a fixed set of workers
//! through a shared FIFO queue, and shutdown delivers one terminate signal
//! per worker before joining each one exactly once. Around it stand smaller
//! verified pieces: line-oriented text search, a post-review workflow, a
//! quota tracker, a memoizing calculator, and assorted string, slice and
//! arithmetic helpers, each with an exact contract.

pub mod aggregator;
pub mod basics;
pub mod game;
pub mod generics;
pub mod pointers;
pub mod restaurant;
pub mod screen;
pub mod iter;
pub mod posts;
pub mod tracker;
pub mod grep;
pub mod ownership;
pub mod pool;
pub mod shapes;
pub mod strings;

use vstd::prelude::*;

verus! {

/// Returns its argument plus two.
pub fn add_two(a: i32) -> (r: i32)
    requires
        a + 2 <= i32::MAX,
    ensures
        r == a + 2,
{
    a + 2
}

} // verus!
