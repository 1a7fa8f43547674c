//! The host's desk at the front of the house.

use vstd::prelude::*;

verus! {

/// Puts the party on the waiting list.
pub fn add_to_waitlist() {
}

} // verus!
