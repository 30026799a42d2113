//! The `check` operation: the resource never offers new versions.
use vstd::prelude::*;

use crate::ops::interface::{ResourceSource, ResourceVersion};

verus! {

/// What concourse hands to `check`.
#[derive(Debug, Clone, PartialEq)]
pub struct Input {
    pub version: Option<ResourceVersion>,
    pub source: ResourceSource,
}

/// The versions that `check` reports: always none, since the resource is
/// only ever put to.
pub fn execute(input: Input) -> (versions: Vec<ResourceVersion>)
    ensures
        versions@.len() == 0,
{
    Vec::new()
}

} // verus!
