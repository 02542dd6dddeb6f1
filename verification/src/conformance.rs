//! The ocpp-conformance component.

use vstd::prelude::*;

verus! {

/// The greeting of the ocpp-conformance component.
pub fn hello() -> (r: String)
    ensures
        r@ == "Hello from ocpp-conformance"@,
{
    String::from_str("Hello from ocpp-conformance")
}

} // verus!
