//! An earlier, unfinished form of `out`.
use vstd::prelude::*;

verus! {

/// What concourse hands to this form of `out`.
#[derive(Debug, Clone, PartialEq, Eq)]
pub struct Params {
    pub x: String,
}

/// The failure of an operation that was never written.
#[derive(Debug, Clone, Copy, PartialEq, Eq, Structural)]
pub struct NotImplemented;

/// This form of `out` was never written: no call of it can succeed. Where
/// the unwritten operation would abort, this function reports
/// [`NotImplemented`] instead, since a verified function does not abort.
pub fn execute(path_to_srpm: &str, json_params: Params) -> (r: Result<(), NotImplemented>)
    ensures
        r == Err::<(), NotImplemented>(NotImplemented),
{
    Err(NotImplemented)
}

} // verus!
