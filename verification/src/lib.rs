use vstd::prelude::*;

verus! {

/// The fixed greeting offered by this library.
///
/// Always returns the same text; the contract pins the result down to
/// that exact character sequence.
pub fn example_function() -> (r: &'static str)
    ensures
        r@ == "Hello from nimbus.ai Rust library!"@,
{
    "Hello from nimbus.ai Rust library!"
}

} // verus!
