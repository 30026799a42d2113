//! The parameters of an earlier form of `check` that digested the srpm.
use vstd::prelude::*;

verus! {

/// Where the srpm lies.
#[derive(Debug, Clone, PartialEq, Eq)]
pub struct ParamsSource {
    pub srpm_path: String,
}

/// A version given as a digest in text.
#[derive(Debug, Clone, PartialEq, Eq)]
pub struct ParamsVersion {
    pub digest: String,
}

/// What concourse hands to this form of `check`.
#[derive(Debug, Clone, PartialEq, Eq)]
pub struct Params {
    pub version: Option<ParamsVersion>,
    pub source: ParamsSource,
}

} // verus!
