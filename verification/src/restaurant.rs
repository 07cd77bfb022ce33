//! A restaurant: the front of house, where guests are received, and what
//! happens behind it.

pub mod front_of_house;

use vstd::prelude::*;

verus! {

/// Brings an order to its table.
fn deliver_order() {
}

/// A visit to the restaurant: the party is put on the waitlist twice, once
/// by the full path of the function and once by the path from here.
pub fn eat_at_restaurant() {
    crate::restaurant::front_of_house::hosting::add_to_waitlist();
    front_of_house::hosting::add_to_waitlist();
}

} // verus!
