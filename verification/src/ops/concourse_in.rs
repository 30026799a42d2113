//! An earlier form of the upload, with its own parameters and a fixed size
//! limit.
use vstd::prelude::*;

verus! {

/// What concourse hands to this form of the upload.
#[derive(Debug, Clone, PartialEq, Eq)]
pub struct Params {
    pub project_id: u32,
    pub login: String,
    pub username: String,
    pub token: String,
    pub url: String,
    pub chroots: Vec<String>,
    pub enable_net: bool,
    pub max_n_bytes: u64,
}

/// The metadata part of the upload, sent as JSON.
#[derive(Debug, Clone, PartialEq, Eq)]
pub struct MultipartRequestMetadata {
    pub project_id: u32,
    pub chroots: Vec<String>,
    pub enable_net: bool,
}

/// The largest srpm, in bytes, that this form uploads (whatever the
/// parameters say).
pub const MAX_N_BYTES: u64 = 250_000_000;

/// Why this form of the upload failed.
#[derive(Debug, Clone, Copy, PartialEq, Eq, Structural)]
pub enum InError {
    /// The srpm is larger than [`MAX_N_BYTES`].
    TooBig,
    /// The srpm's path has no file name.
    NoFileName,
}

impl Params {
    /// The metadata of the upload: the project, the chroots and whether the
    /// build may use the network.
    pub fn into_metadata(self) -> (m: MultipartRequestMetadata)
        ensures
            m.project_id == self.project_id,
            m.chroots == self.chroots,
            m.enable_net == self.enable_net,
    {
        MultipartRequestMetadata {
            project_id: self.project_id,
            chroots: self.chroots,
            enable_net: self.enable_net,
        }
    }
}

/// Admits an srpm of `size` bytes: one larger than [`MAX_N_BYTES`] is refused.
pub fn check_size(size: u64) -> (r: Result<(), InError>)
    ensures
        r is Ok <==> size <= MAX_N_BYTES,
        r is Err ==> r == Err::<(), InError>(InError::TooBig),
{
    if size > MAX_N_BYTES {
        Err(InError::TooBig)
    } else {
        Ok(())
    }
}

} // verus!
