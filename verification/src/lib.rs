//! A small bridge that keeps the two most recently observed broker values
//! (an attendance count and a status message) in memory and renders them
//! on demand as the fixed display template.

use vstd::prelude::*;

pub mod state;
pub mod subscribe;
pub mod template;
pub mod text;

verus! {

/// Greeting served at the root path.
pub fn index() -> (r: &'static str)
    ensures
        r@ == "Hello, world!"@,
{
    "Hello, world!"
}

} // verus!
