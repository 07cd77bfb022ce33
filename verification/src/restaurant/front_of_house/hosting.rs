//! Receiving guests.

use vstd::prelude::*;

verus! {

/// Puts a party on the waitlist. No list is kept, so nothing changes.
pub fn add_to_waitlist() {
}

} // verus!
