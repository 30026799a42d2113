//! The `out` operation: push an srpm to copr and report its digest.
//!
//! The operation runs in stages, and the caller performs the work between
//! them: [`plan`] resolves the parameters; the caller walks
//! `rpmbuild_dir` below its directory and hands the entries to
//! [`OutPlan::locate`]; it reads the size of the srpm for [`OutPlan::check_size`];
//! it reads the srpm and the metadata as JSON for [`OutPlan::upload_request`];
//! it sends that request and hands the HTTP status to [`conclude`], which
//! yields the version to print.
use vstd::prelude::*;

use crate::digest::{whirlpool, whirlpool_digest};
use crate::ops::error::ResponseError;
use crate::ops::interface::{
    default_chroots, default_max_n_bytes, default_regex, default_regex_str, is_default_chroots,
    ResourceParams, ResourceSource, ResourceVersion,
};
use crate::ops::multipart::{
    closing, multipart_media_type, part, MultipartRequest, PreparedRequest,
};
use crate::pattern::{compile_regex, regex_compiles, regex_finds};

verus! {

/// What concourse hands to `out`.
#[derive(Debug, Clone, PartialEq, Eq)]
pub struct Input {
    pub source: ResourceSource,
    pub params: Option<ResourceParams>,
}

/// The metadata part of the upload, sent to copr as JSON.
#[derive(Debug, Clone, PartialEq, Eq)]
pub struct MultipartRequestMetadata {
    pub project_id: u32,
    pub chroots: Vec<String>,
    pub enable_net: bool,
}

/// Why `out` failed.
#[derive(Debug, Clone, PartialEq, Eq)]
pub enum OutError {
    /// The step gave no `params`.
    MissingParams,
    /// The step gave no `project_id`.
    MissingProjectId,
    /// The srpm regex does not compile.
    InvalidRegex,
    /// The directory walk could not read an entry.
    WalkFailed,
    /// A file's path is not valid UTF-8.
    NonUnicodePath,
    /// No file matched the srpm regex.
    NoMatch { regex: String },
    /// The srpm is larger than `max_n_bytes`.
    TooBig { size: u64, max: u64 },
    /// The srpm's path has no file name.
    NoFileName,
    /// copr refused the upload.
    Refused(ResponseError),
}

/// One entry of the walk through the rpmbuild directory, in walk order.
#[derive(Debug, Clone, PartialEq, Eq)]
pub enum WalkEntry {
    /// An entry that the walk could not read.
    Failed,
    /// A regular file: its path (`None` when it is not valid UTF-8) and the
    /// last component of that path (`None` when there is none).
    File { path: Option<String>, file_name: Option<String> },
    /// Anything but a regular file.
    Other,
}

/// The srpm that was picked.
#[derive(Debug, Clone, PartialEq, Eq)]
pub struct SrpmFile {
    pub path: String,
    pub file_name: Option<String>,
}

/// The resolved parameters of an upload.
#[derive(Debug, Clone, PartialEq, Eq)]
pub struct OutPlan {
    /// The directory, below the one `out` was given, to search.
    pub rpmbuild_dir: String,
    /// The regex that the srpm's path must match.
    pub regex: String,
    /// The largest srpm, in bytes, that is pushed.
    pub max_n_bytes: u64,
    pub meta: MultipartRequestMetadata,
    pub source: ResourceSource,
}

/// The boundary of the multipart body.
pub const BOUNDARY: &'static str = "randomarbitrarystuffwhichisprettysureorthogonalslashunique";

/// The media type of the metadata part.
pub const MIME_JSON: &'static str = "application/json";

/// The media type of the srpm part.
pub const MIME_SRPM: &'static str = "application/x-rpm";

/// The HTTP status with which copr accepts an upload.
pub const STATUS_CREATED: u16 = 201;

/// The HTTP status with which copr refuses a malformed upload.
pub const STATUS_BAD_REQUEST: u16 = 400;

/// The HTTP status with which copr refuses the credentials.
pub const STATUS_FORBIDDEN: u16 = 403;

/// The parameters of an upload, where the optional ones that the step leaves
/// out take the values of [`ResourceParams::default`].
pub open spec fn planned(input: Input, r: Result<OutPlan, OutError>) -> bool {
    match input.params {
        None => r matches Err(OutError::MissingParams),
        Some(p) => match p.project_id {
            None => r matches Err(OutError::MissingProjectId),
            Some(id) => r matches Ok(plan) && {
                &&& plan.meta.project_id == id
                &&& plan.rpmbuild_dir == p.rpmbuild_dir
                &&& plan.regex@ == match p.regex {
                    Some(re) => re@,
                    None => default_regex(),
                }
                &&& match p.chroots {
                    Some(c) => plan.meta.chroots == c,
                    None => is_default_chroots(plan.meta.chroots@),
                }
                &&& plan.meta.enable_net == match p.enable_net {
                    Some(b) => b,
                    None => false,
                }
                &&& plan.max_n_bytes == match p.max_n_bytes {
                    Some(m) => m,
                    None => default_max_n_bytes(),
                }
                &&& plan.source == input.source
            },
        },
    }
}

/// Resolves the parameters of an upload.
pub fn plan(input: Input) -> (r: Result<OutPlan, OutError>)
    ensures
        planned(input, r),
{
    let params = match input.params {
        Some(p) => p,
        None => return Err(OutError::MissingParams),
    };
    let project_id = match params.project_id {
        Some(id) => id,
        None => return Err(OutError::MissingProjectId),
    };
    let regex = match params.regex {
        Some(re) => re,
        None => default_regex_str().to_owned(),
    };
    let chroots = match params.chroots {
        Some(c) => c,
        None => default_chroots(),
    };
    let enable_net = match params.enable_net {
        Some(b) => b,
        None => false,
    };
    let max_n_bytes = match params.max_n_bytes {
        Some(m) => m,
        None => 1_000_000_000,
    };
    Ok(OutPlan {
        rpmbuild_dir: params.rpmbuild_dir,
        regex,
        max_n_bytes,
        meta: MultipartRequestMetadata { project_id, chroots, enable_net },
        source: input.source,
    })
}

/// Whether the search for the srpm goes on past an entry: it is neither a
/// regular file nor a file whose path matches, and it holds no error.
pub open spec fn passable(e: WalkEntry, regex: Seq<char>) -> bool {
    match e {
        WalkEntry::Other => true,
        WalkEntry::File { path: Some(p), file_name: _ } => !regex_finds(regex, p@),
        _ => false,
    }
}

/// Whether the search goes on past the first `k` entries.
pub open spec fn passable_prefix(entries: Seq<WalkEntry>, regex: Seq<char>, k: int) -> bool {
    forall|j: int| 0 <= j < k ==> passable(#[trigger] entries[j], regex)
}

/// Whether an entry is the file that the search picks as `f`: a regular
/// file with a UTF-8 path that matches.
pub open spec fn picks(e: WalkEntry, regex: Seq<char>, f: SrpmFile) -> bool {
    match e {
        WalkEntry::File { path: Some(p), file_name: n } => regex_finds(regex, p@) && f.path == p
            && f.file_name == n,
        _ => false,
    }
}

/// Whether an entry is a regular file whose path is not UTF-8.
pub open spec fn has_foreign_path(e: WalkEntry) -> bool {
    e matches WalkEntry::File { path: None, file_name: _ }
}

/// What the search for the srpm gives on a compiling regex: the first entry
/// that does not let it go on decides; where there is none, nothing is found.
pub open spec fn search_outcome(
    entries: Seq<WalkEntry>,
    regex: Seq<char>,
    r: Result<Option<SrpmFile>, OutError>,
) -> bool {
    match r {
        Ok(None) => passable_prefix(entries, regex, entries.len() as int),
        Ok(Some(f)) => exists|k: int|
            0 <= k < entries.len() && passable_prefix(entries, regex, k) && picks(
                #[trigger] entries[k],
                regex,
                f,
            ),
        Err(OutError::WalkFailed) => exists|k: int|
            0 <= k < entries.len() && passable_prefix(entries, regex, k) && #[trigger] entries[k]
                is Failed,
        Err(OutError::NonUnicodePath) => exists|k: int|
            0 <= k < entries.len() && passable_prefix(entries, regex, k) && has_foreign_path(
                #[trigger] entries[k],
            ),
        _ => false,
    }
}

/// Picks the srpm among the entries of the walk: the first regular file
/// whose path matches `srpm_regex`, in walk order. An unreadable entry or a
/// path that is not UTF-8 met before it ends the search with an error.
pub fn find_srpm_regex_match(entries: &Vec<WalkEntry>, srpm_regex: &str) -> (r: Result<
    Option<SrpmFile>,
    OutError,
>)
    ensures
        !regex_compiles(srpm_regex@) ==> r matches Err(OutError::InvalidRegex),
        regex_compiles(srpm_regex@) ==> search_outcome(entries@, srpm_regex@, r),
{
    let re = match compile_regex(srpm_regex) {
        Ok(re) => re,
        Err(_) => return Err(OutError::InvalidRegex),
    };
    let mut i: usize = 0;
    while i < entries.len()
        invariant
            i <= entries@.len(),
            re.pattern() == srpm_regex@,
            regex_compiles(srpm_regex@),
            passable_prefix(entries@, srpm_regex@, i as int),
        decreases entries@.len() - i,
    {
        match &entries[i] {
            WalkEntry::Failed => {
                assert(entries@[i as int] is Failed);
                return Err(OutError::WalkFailed);
            },
            WalkEntry::Other => {},
            WalkEntry::File { path, file_name } => match path {
                None => {
                    assert(has_foreign_path(entries@[i as int]));
                    return Err(OutError::NonUnicodePath);
                },
                Some(p) => {
                    if re.is_match(p.as_str()) {
                        let f = SrpmFile { path: p.clone(), file_name: file_name.clone() };
                        assert(picks(entries@[i as int], srpm_regex@, f));
                        return Ok(Some(f));
                    }
                },
            },
        }
        i = i + 1;
    }
    Ok(None)
}

impl OutPlan {
    /// Picks the srpm to push among the entries of the walk through
    /// `rpmbuild_dir`; finding none is an error.
    pub fn locate(&self, entries: &Vec<WalkEntry>) -> (r: Result<SrpmFile, OutError>)
        ensures
            !regex_compiles(self.regex@) ==> r matches Err(OutError::InvalidRegex),
            regex_compiles(self.regex@) ==> search_outcome(
                entries@,
                self.regex@,
                match r {
                    Ok(f) => Ok(Some(f)),
                    Err(OutError::NoMatch { regex: re }) => Ok(None),
                    Err(e) => Err(e),
                },
            ),
            r matches Err(OutError::NoMatch { regex: re }) ==> re@ == self.regex@,
    {
        match find_srpm_regex_match(entries, self.regex.as_str()) {
            Ok(Some(f)) => Ok(f),
            Ok(None) => Err(OutError::NoMatch { regex: self.regex.clone() }),
            Err(e) => Err(e),
        }
    }

    /// Admits an srpm of `size` bytes for upload: one larger than
    /// `max_n_bytes` is refused.
    pub fn check_size(&self, size: u64) -> (r: Result<(), OutError>)
        ensures
            size <= self.max_n_bytes ==> r is Ok,
            size > self.max_n_bytes ==> r == Err::<(), OutError>(
                OutError::TooBig { size, max: self.max_n_bytes },
            ),
    {
        if size > self.max_n_bytes {
            Err(OutError::TooBig { size, max: self.max_n_bytes })
        } else {
            Ok(())
        }
    }

    /// The upload of the srpm `srpm` whose bytes are `contents`, with the
    /// metadata `meta_json` (the JSON of `self.meta`): a multipart body with
    /// the metadata part and then the srpm part, at most `max_n_bytes` of it,
    /// authenticated with the login and token of the source.
    pub fn upload_request(&self, srpm: &SrpmFile, meta_json: &[u8], contents: &[u8]) -> (r:
        Result<PreparedRequest, OutError>)
        ensures
            srpm.file_name is None ==> r matches Err(OutError::NoFileName),
            srpm.file_name matches Some(name) ==> r matches Ok(req) && upload_framed(
                self,
                name@,
                meta_json@,
                contents@,
                req,
            ),
    {
        let name = match &srpm.file_name {
            Some(n) => n,
            None => return Err(OutError::NoFileName),
        };
        let keep: usize = if (contents.len() as u64) <= self.max_n_bytes {
            contents.len()
        } else {
            self.max_n_bytes as usize
        };
        let kept = slice_prefix(contents, keep);
        assert(kept@ == kept_bytes(self.max_n_bytes, contents@));
        let req = frame_upload(
            name.as_str(),
            meta_json,
            kept,
            self.source.login.clone(),
            self.source.token.clone(),
        );
        Ok(req)
    }
}

/// The multipart upload of the metadata `meta_json` and the srpm bytes
/// `srpm` under the file name `name`.
fn frame_upload(name: &str, meta_json: &[u8], srpm: &[u8], login: String, token: String) -> (r:
    PreparedRequest)
    ensures
        r.body@ == upload_body(name@, meta_json@, srpm@),
        r.content_type@ == multipart_media_type(BOUNDARY@),
        r.content_length == r.body@.len(),
        r.username == login,
        r.password == Some(token),
{
    let mut multipart = MultipartRequest::from_request(Some(BOUNDARY));
    multipart.add_stream("metadata", meta_json, None, Some(MIME_JSON));
    multipart.add_stream("srpm", srpm, Some(name), Some(MIME_SRPM));
    let req = multipart.send(login, Some(token));
    assert(req.body@ =~= upload_body(name@, meta_json@, srpm@));
    req
}

/// The body of an upload: the metadata part, the srpm part and the closing
/// boundary.
pub open spec fn upload_body(file_name: Seq<char>, meta_json: Seq<u8>, srpm: Seq<u8>) -> Seq<u8> {
    part(BOUNDARY@, "metadata"@, None, Some(MIME_JSON@), meta_json) + part(
        BOUNDARY@,
        "srpm"@,
        Some(file_name),
        Some(MIME_SRPM@),
        srpm,
    ) + closing(BOUNDARY@)
}

/// The bytes of the srpm that are sent: at most `max_n_bytes` of them.
pub open spec fn kept_bytes(max_n_bytes: u64, contents: Seq<u8>) -> Seq<u8> {
    if contents.len() <= max_n_bytes {
        contents
    } else {
        contents.subrange(0, max_n_bytes as int)
    }
}

/// The first `n` bytes of a byte string.
fn slice_prefix(s: &[u8], n: usize) -> (p: &[u8])
    requires
        n <= s@.len(),
    ensures
        p@ == s@.subrange(0, n as int),
{
    let (p, _) = s.split_at(n);
    p
}

/// What `upload_request` frames: the multipart body of the metadata part
/// and the srpm part (cut to `max_n_bytes`), its headers and the credentials
/// of the source.
pub open spec fn upload_framed(
    plan: &OutPlan,
    file_name: Seq<char>,
    meta_json: Seq<u8>,
    contents: Seq<u8>,
    req: PreparedRequest,
) -> bool {
    &&& req.body@ == upload_body(file_name, meta_json, kept_bytes(plan.max_n_bytes, contents))
    &&& req.content_type@ == multipart_media_type(BOUNDARY@)
    &&& req.content_length == req.body@.len()
    &&& req.username == plan.source.login
    &&& req.password == Some(plan.source.token)
}

/// The srpm bytes that are sent never exceed `max_n_bytes`, and they are
/// the srpm itself, or its beginning where it grew beyond the limit.
pub proof fn kept_within_limit(max_n_bytes: u64, contents: Seq<u8>)
    ensures
        kept_bytes(max_n_bytes, contents).len() <= max_n_bytes,
        kept_bytes(max_n_bytes, contents) == contents.subrange(
            0,
            kept_bytes(max_n_bytes, contents).len() as int,
        ),
        contents.len() <= max_n_bytes ==> kept_bytes(max_n_bytes, contents) == contents,
{
    assert(contents.subrange(0, contents.len() as int) =~= contents);
}

/// The first 32 bytes of the Whirlpool digest of a byte string.
pub open spec fn digest_prefix(data: Seq<u8>) -> Seq<u8> {
    whirlpool_digest(data).subrange(0, 32)
}

/// The Whirlpool digest of the srpm's bytes.
pub fn calculate_whirlpool(contents: &[u8]) -> (d: [u8; 64])
    ensures
        d@ == whirlpool_digest(contents@),
{
    whirlpool(contents)
}

/// The version of a pushed srpm: the first 32 bytes of its Whirlpool digest.
pub fn version_of(contents: &[u8]) -> (v: ResourceVersion)
    ensures
        v.digest@ == digest_prefix(contents@),
        v.digest@ == whirlpool_digest(contents@).subrange(0, 32),
{
    let d = calculate_whirlpool(contents);
    let mut snip = [0u8; 32];
    let mut i: usize = 0;
    while i < 32
        invariant
            i <= 32,
            d@ == whirlpool_digest(contents@),
            forall|j: int| 0 <= j < i ==> snip@[j] == d@[j],
        decreases 32 - i,
    {
        snip[i] = d[i];
        i = i + 1;
    }
    assert(snip@ =~= d@.subrange(0, 32));
    ResourceVersion { digest: snip }
}

/// What copr's answer to the upload means: `201 Created` accepts it, `403
/// Forbidden` refuses the credentials, and every other status counts as an
/// invalid request.
pub open spec fn response_outcome(status: u16) -> Result<(), ResponseError> {
    if status == STATUS_CREATED {
        Ok(())
    } else if status == STATUS_FORBIDDEN {
        Err(ResponseError::AuthentificationFailure)
    } else {
        Err(ResponseError::InvalidRequest)
    }
}

/// Concludes the upload from copr's HTTP `status`: where copr created the
/// build, the new version is the digest of the srpm's `contents`; otherwise
/// the refusal.
pub fn conclude(status: u16, contents: &[u8]) -> (r: Result<ResourceVersion, OutError>)
    ensures
        match response_outcome(status) {
            Ok(()) => r matches Ok(v) && v.digest@ == digest_prefix(contents@),
            Err(e) => r == Err::<ResourceVersion, OutError>(OutError::Refused(e)),
        },
        status == STATUS_CREATED ==> r is Ok && r->Ok_0.digest@ == whirlpool_digest(
            contents@,
        ).subrange(0, 32),
{
    if status == STATUS_BAD_REQUEST {
        Err(OutError::Refused(ResponseError::InvalidRequest))
    } else if status == STATUS_FORBIDDEN {
        Err(OutError::Refused(ResponseError::AuthentificationFailure))
    } else if status == STATUS_CREATED {
        Ok(version_of(contents))
    } else {
        Err(OutError::Refused(ResponseError::InvalidRequest))
    }
}

/// An entry lets the search go on exactly when it is no regular file, or a
/// regular file whose whole UTF-8 path the regex finds no match in.
pub open spec fn skipped_by_search(e: WalkEntry, regex: Seq<char>) -> bool {
    e is Other || (e is File && e->path is Some && !regex_finds(regex, e->path->0@))
}

/// The srpm search picks the first regular file whose UTF-8 path the regex
/// finds a match in (anywhere in the whole path, whatever the file name is),
/// provided only skipped entries come before it.
pub proof fn law_first_matching_path_is_picked(
    entries: Seq<WalkEntry>,
    regex: Seq<char>,
    r: Result<Option<SrpmFile>, OutError>,
    k: int,
)
    requires
        search_outcome(entries, regex, r),
        0 <= k < entries.len(),
        entries[k] is File,
        entries[k]->path is Some,
        regex_finds(regex, entries[k]->path->0@),
        forall|j: int| 0 <= j < k ==> skipped_by_search(#[trigger] entries[j], regex),
    ensures
        r is Ok && r->Ok_0 is Some && r->Ok_0->0.path == entries[k]->path->0
            && r->Ok_0->0.file_name == entries[k]->file_name,
{
    assert(!passable(entries[k], regex));
    match r {
        Ok(None) => {
            assert(passable(entries[k], regex));
        },
        Ok(Some(f)) => {
            let k2 = choose|k2: int|
                0 <= k2 < entries.len() && passable_prefix(entries, regex, k2) && picks(
                    #[trigger] entries[k2],
                    regex,
                    f,
                );
            if k2 < k {
                assert(skipped_by_search(entries[k2], regex));
            } else if k2 > k {
                assert(passable(entries[k], regex));
            }
        },
        Err(OutError::WalkFailed) => {
            let k2 = choose|k2: int|
                0 <= k2 < entries.len() && passable_prefix(entries, regex, k2) && #[trigger] entries[k2]
                    is Failed;
            if k2 < k {
                assert(skipped_by_search(entries[k2], regex));
            } else if k2 > k {
                assert(passable(entries[k], regex));
            }
        },
        Err(OutError::NonUnicodePath) => {
            let k2 = choose|k2: int|
                0 <= k2 < entries.len() && passable_prefix(entries, regex, k2) && has_foreign_path(
                    #[trigger] entries[k2],
                );
            if k2 < k {
                assert(skipped_by_search(entries[k2], regex));
            } else if k2 > k {
                assert(passable(entries[k], regex));
            }
        },
        _ => {},
    }
}

/// What the search picks is a regular file of the walk whose whole path the
/// regex finds a match in, and every entry before it was skipped.
pub proof fn law_picked_path_matches(entries: Seq<WalkEntry>, regex: Seq<char>, f: SrpmFile)
    requires
        search_outcome(entries, regex, Ok(Some(f))),
    ensures
        regex_finds(regex, f.path@),
        exists|k: int|
            0 <= k < entries.len() && #[trigger] entries[k] == (WalkEntry::File {
                path: Some(f.path),
                file_name: f.file_name,
            }) && forall|j: int| 0 <= j < k ==> skipped_by_search(#[trigger] entries[j], regex),
{
    let k = choose|k: int|
        0 <= k < entries.len() && passable_prefix(entries, regex, k) && picks(
            #[trigger] entries[k],
            regex,
            f,
        );
    assert forall|j: int| 0 <= j < k implies skipped_by_search(#[trigger] entries[j], regex) by {
        assert(passable(entries[j], regex));
    }
    assert(entries[k] == WalkEntry::File { path: Some(f.path), file_name: f.file_name });
}

/// When the search finds nothing, every entry of the walk was skipped: no
/// regular file has a UTF-8 path that the regex finds a match in.
pub proof fn law_nothing_found_means_no_match(entries: Seq<WalkEntry>, regex: Seq<char>)
    requires
        search_outcome(entries, regex, Ok(None)),
    ensures
        forall|j: int| 0 <= j < entries.len() ==> skipped_by_search(#[trigger] entries[j], regex),
{
    assert forall|j: int| 0 <= j < entries.len() implies skipped_by_search(
        #[trigger] entries[j],
        regex,
    ) by {
        assert(passable(entries[j], regex));
    }
}

/// The version of an srpm is the first 32 bytes of the Whirlpool digest of
/// all of its bytes.
pub proof fn law_version_digests_whole_srpm(contents: Seq<u8>)
    ensures
        digest_prefix(contents) == whirlpool_digest(contents).subrange(0, 32),
{
}

/// A planned upload carries what the step gives: its project, its regex,
/// its whole list of chroots, its network switch and its size limit.
pub proof fn law_plan_keeps_given_params(input: Input, r: Result<OutPlan, OutError>)
    requires
        planned(input, r),
        input.params is Some,
        input.params->0.project_id is Some,
    ensures
        r is Ok,
        r->Ok_0.meta.project_id == input.params->0.project_id->0,
        r->Ok_0.rpmbuild_dir@ == input.params->0.rpmbuild_dir@,
        r->Ok_0.source == input.source,
        input.params->0.regex matches Some(re) ==> r->Ok_0.regex@ == re@,
        input.params->0.chroots matches Some(c) ==> r->Ok_0.meta.chroots@ == c@,
        input.params->0.enable_net matches Some(b) ==> r->Ok_0.meta.enable_net == b,
        input.params->0.max_n_bytes matches Some(m) ==> r->Ok_0.max_n_bytes == m,
{
}

/// Parameters that the step leaves out take their documented values: the
/// regex `.*\.src\.rpm`, the single chroot `fedora-25-x86_64`, no network and
/// at most 1000000000 bytes.
pub proof fn law_plan_defaults(input: Input, r: Result<OutPlan, OutError>)
    requires
        planned(input, r),
        input.params is Some,
        input.params->0.project_id is Some,
    ensures
        input.params->0.regex is None ==> r->Ok_0.regex@ == ".*\\.src\\.rpm"@,
        input.params->0.chroots is None ==> r->Ok_0.meta.chroots@.len() == 1
            && r->Ok_0.meta.chroots@[0]@ == "fedora-25-x86_64"@,
        input.params->0.enable_net is None ==> !r->Ok_0.meta.enable_net,
        input.params->0.max_n_bytes is None ==> r->Ok_0.max_n_bytes == 1_000_000_000,
{
}

/// Without parameters, or without a project, nothing is planned.
pub proof fn law_plan_needs_project(input: Input, r: Result<OutPlan, OutError>)
    requires
        planned(input, r),
    ensures
        input.params is None ==> r == Err::<OutPlan, OutError>(OutError::MissingParams),
        input.params matches Some(p) && p.project_id is None ==> r == Err::<OutPlan, OutError>(
            OutError::MissingProjectId,
        ),
{
}

} // verus!
