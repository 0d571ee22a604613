use vstd::prelude::*;

verus! {

/// The semantic version of the registry.
pub const SEMANTIC_VERSION: &'static str = "0.1.0";

} // verus!
