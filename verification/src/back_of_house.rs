use vstd::prelude::*;

verus! {

/// An appetizer on the restaurant's menu.
#[derive(Clone, Copy, Debug, PartialEq, Eq, Structural)]
pub enum Appetizer {
    Soup,
    Salad,
}

} // verus!
