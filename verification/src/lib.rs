use vstd::prelude::*;

pub mod error;
pub mod model;
pub mod store;

verus! {

/// Body of the root route: a fixed greeting.
pub fn hello() -> (r: &'static str)
    ensures
        r@ == "Hello, world!"@,
{
    "Hello, world!"
}

} // verus!
