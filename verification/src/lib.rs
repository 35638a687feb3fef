//! A small menu-ordering library: the back of house publishes its list of
//! appetizers, and the front of house places orders from it.

use vstd::prelude::*;

pub mod back_of_house;

verus! {

use crate::back_of_house::Appetizer;

/// Places one order for each appetizer on the menu: a soup and a salad.
pub fn eat_at_restaurant() {
    let order1 = Appetizer::Soup;
    let order2 = Appetizer::Salad;
    assert(order1 is Soup);
    assert(order2 is Salad);
}

/// Returns its argument increased by one.
pub fn plus_one(x: i32) -> (r: i32)
    requires
        x < i32::MAX,
    ensures
        r == x + 1,
{
    x + 1
}

} // verus!
