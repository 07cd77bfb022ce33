//! The front of house: hosting, and mending what went wrong with an order.

pub mod hosting;

use vstd::prelude::*;

verus! {

/// Has a wrong order cooked again and delivered.
#[allow(dead_code)]
fn fix_incorrect_order() {
    cook_order();
    super::deliver_order();
}

/// Cooks an order.
fn cook_order() {
}

} // verus!
