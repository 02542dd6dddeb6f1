//! The ocpp-cp component.

use vstd::prelude::*;

verus! {

/// The greeting of the ocpp-cp component.
pub fn hello() -> (r: String)
    ensures
        r@ == "Hello from ocpp-cp"@,
{
    String::from_str("Hello from ocpp-cp")
}

} // verus!
