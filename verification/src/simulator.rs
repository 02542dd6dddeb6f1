//! The ocpp-simulator component.

use vstd::prelude::*;

verus! {

/// The greeting of the ocpp-simulator component.
pub fn hello() -> (r: String)
    ensures
        r@ == "Hello from ocpp-simulator"@,
{
    String::from_str("Hello from ocpp-simulator")
}

} // verus!
