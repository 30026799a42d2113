//! The logic of a concourse resource that pushes source RPMs to copr.
//!
//! The resource runs as one of three programs, `check`, `in` and `out`.
//! This library decides which of them was started, resolves the parameters
//! that concourse hands over, finds the srpm to push, frames the multipart
//! upload and derives the version that concourse records afterwards.
//! Reading files, walking directories and talking HTTP are left to the caller.
use vstd::prelude::*;

pub mod digest;
pub mod dispatch;
pub mod ops;
pub mod pattern;

verus! {

} // verus!
