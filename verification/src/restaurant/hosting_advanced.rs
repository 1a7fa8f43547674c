//! A second host's desk, re-exported for callers outside the restaurant.

use vstd::prelude::*;

verus! {

/// Puts the party on the waiting list.
pub fn add_to_waitlist() {
}

} // verus!
