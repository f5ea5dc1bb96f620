//! A restaurant, laid out in modules: the front of the house, where the
//! guests are, and the back of the house, where the kitchen is.

mod back_of_house;
pub mod front_of_house;

pub use crate::restaurant::front_of_house::hosting;
use vstd::prelude::*;

verus! {

/// Brings an order to the table.
pub(crate) fn serve_order() {
}

/// A guest comes to eat: the host puts the guest on the waiting list.
pub fn eat_at_restaurant() {
    hosting::add_to_waitlist();
}

} // verus!
