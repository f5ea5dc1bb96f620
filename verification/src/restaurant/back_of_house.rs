//! The kitchen.

use vstd::prelude::*;

verus! {

/// Cooks an order again and has it served.
pub(crate) fn fix_incorrect_order() {
    cook_order();
    crate::restaurant::serve_order();
}

/// Cooks an order.
fn cook_order() {
}

} // verus!
