//! The `in` operation: nothing is fetched.
use vstd::prelude::*;

use crate::ops::interface::ResourceVersion;

verus! {

/// What concourse hands to `in`: nothing is read from it.
#[derive(Debug, Clone, PartialEq, Eq)]
pub struct Input {}

/// What `in` answers: the version that was fetched.
#[derive(Debug, Clone, PartialEq)]
pub struct Output {
    pub version: ResourceVersion,
}

/// The all-zero digest that `in` reports.
pub open spec fn zero_digest() -> Seq<u8> {
    Seq::new(32, |i: int| 0u8)
}

/// Fetches nothing into `dir` and reports the all-zero version.
pub fn execute(dir: &str, json_params: Input) -> (output: Output)
    ensures
        output.version.digest@ == zero_digest(),
{
    let digest = [0u8; 32];
    assert(digest@ =~= zero_digest());
    Output { version: ResourceVersion { digest } }
}

} // verus!
