use vstd::prelude::*;

pub mod root;

verus! {

/// Route prefix of the example routes.
pub const PATH: &'static str = "/example";

} // verus!
