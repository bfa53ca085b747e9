//! What the bundled HTTP listener says.

use vstd::prelude::*;

verus! {

/// The body sent in answer to every request, whatever its method or path.
pub fn greeting() -> (body: &'static str)
    ensures
        body@ == "Hello world"@,
{
    "Hello world"
}

} // verus!
