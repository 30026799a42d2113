use copr_resource::ops::error::ResponseError;
use copr_resource::ops::interface::{ResourceParams, ResourceSource};
use copr_resource::ops::rout::{
    calculate_whirlpool, conclude, find_srpm_regex_match, plan, version_of, Input, OutError,
    SrpmFile, WalkEntry, BOUNDARY,
};

fn source() -> ResourceSource {
    ResourceSource { login: "me".to_string(), token: "SECRET-REDACTED".to_string(), url: "https://copr".to_string() }
}

fn params(project_id: Option<u32>) -> ResourceParams {
    ResourceParams {
        rpmbuild_dir: "rpmbuild".to_string(),
        project_id,
        regex: None,
        chroots: None,
        enable_net: None,
        max_n_bytes: None,
    }
}

fn file(path: &str) -> WalkEntry {
    let name = path.rsplit('/').next().map(|s| s.to_string());
    WalkEntry::File { path: Some(path.to_string()), file_name: name }
}

fn hex(s: &str) -> Vec<u8> {
    (0..s.len()).step_by(2).map(|i| u8::from_str_radix(&s[i..i + 2], 16).unwrap()).collect()
}

#[test]
fn plan_needs_params() {
    assert_eq!(plan(Input { source: source(), params: None }), Err(OutError::MissingParams));
}

#[test]
fn plan_needs_project_id() {
    assert_eq!(
        plan(Input { source: source(), params: Some(params(None)) }),
        Err(OutError::MissingProjectId)
    );
}

#[test]
fn plan_takes_documented_defaults() {
    let p = plan(Input { source: source(), params: Some(params(Some(42))) }).unwrap();
    assert_eq!(p.rpmbuild_dir, "rpmbuild");
    assert_eq!(p.regex, r".*\.src\.rpm");
    assert_eq!(p.max_n_bytes, 1_000_000_000);
    assert_eq!(p.meta.project_id, 42);
    assert_eq!(p.meta.chroots, vec!["fedora-25-x86_64".to_string()]);
    assert!(!p.meta.enable_net);
    assert_eq!(p.source, source());
}

#[test]
fn plan_keeps_given_values() {
    let mut ps = params(Some(7));
    ps.regex = Some("foo.*".to_string());
    ps.chroots = Some(vec![]);
    ps.enable_net = Some(true);
    ps.max_n_bytes = Some(10);
    let p = plan(Input { source: source(), params: Some(ps) }).unwrap();
    assert_eq!(p.regex, "foo.*");
    assert!(p.meta.chroots.is_empty());
    assert!(p.meta.enable_net);
    assert_eq!(p.max_n_bytes, 10);
}

#[test]
fn first_matching_file_is_chosen() {
    let entries = vec![
        WalkEntry::Other,
        file("d/readme.txt"),
        file("d/a.src.rpm"),
        file("d/b.src.rpm"),
    ];
    let r = find_srpm_regex_match(&entries, r".*\.src\.rpm").unwrap().unwrap();
    assert_eq!(r, SrpmFile { path: "d/a.src.rpm".to_string(), file_name: Some("a.src.rpm".to_string()) });
}

#[test]
fn nothing_matches() {
    let entries = vec![WalkEntry::Other, file("d/readme.txt")];
    assert_eq!(find_srpm_regex_match(&entries, r".*\.src\.rpm"), Ok(None));
    assert_eq!(find_srpm_regex_match(&Vec::new(), r".*\.src\.rpm"), Ok(None));
}

#[test]
fn unreadable_entry_before_match_fails() {
    let entries = vec![file("x.txt"), WalkEntry::Failed, file("a.src.rpm")];
    assert_eq!(find_srpm_regex_match(&entries, r".*\.src\.rpm"), Err(OutError::WalkFailed));
    let entries = vec![file("a.src.rpm"), WalkEntry::Failed];
    assert!(find_srpm_regex_match(&entries, r".*\.src\.rpm").unwrap().is_some());
}

#[test]
fn non_unicode_path_fails() {
    let entries = vec![WalkEntry::File { path: None, file_name: None }, file("a.src.rpm")];
    assert_eq!(find_srpm_regex_match(&entries, r".*\.src\.rpm"), Err(OutError::NonUnicodePath));
}

#[test]
fn invalid_regex_fails_even_without_entries() {
    assert_eq!(find_srpm_regex_match(&Vec::new(), "(unclosed"), Err(OutError::InvalidRegex));
}

#[test]
fn locate_reports_the_regex_when_nothing_matches() {
    let p = plan(Input { source: source(), params: Some(params(Some(1))) }).unwrap();
    assert_eq!(
        p.locate(&vec![file("x.txt")]),
        Err(OutError::NoMatch { regex: r".*\.src\.rpm".to_string() })
    );
}

#[test]
fn size_limit() {
    let mut ps = params(Some(1));
    ps.max_n_bytes = Some(100);
    let p = plan(Input { source: source(), params: Some(ps) }).unwrap();
    assert_eq!(p.check_size(100), Ok(()));
    assert_eq!(p.check_size(101), Err(OutError::TooBig { size: 101, max: 100 }));
}

#[test]
fn upload_request_frames_metadata_and_srpm() {
    let mut ps = params(Some(1));
    ps.max_n_bytes = Some(3);
    let p = plan(Input { source: source(), params: Some(ps) }).unwrap();
    let srpm = SrpmFile { path: "d/a.src.rpm".to_string(), file_name: Some("a.src.rpm".to_string()) };
    let req = p.upload_request(&srpm, b"{\"x\":1}", b"RPMDATA").unwrap();
    let expected = format!(
        "--{b}\r\nContent-Disposition: form-data; name=\"metadata\"\r\nContent-Type: application/json\r\n\r\n{{\"x\":1}}\r\n\r\n--{b}\r\nContent-Disposition: form-data; name=\"srpm\"; filename=\"a.src.rpm\"\r\nContent-Type: application/x-rpm\r\n\r\nRPM\r\n\r\n--{b}--\r\n",
        b = BOUNDARY
    );
    assert_eq!(req.body, expected.into_bytes());
    assert_eq!(req.content_length, req.body.len() as u64);
    assert_eq!(req.content_type, format!("multipart/form-data; boundary={}", BOUNDARY));
    assert_eq!(req.username, "me");
    assert_eq!(req.password, Some("SECRET-REDACTED".to_string()));
}

#[test]
fn upload_request_needs_a_file_name() {
    let p = plan(Input { source: source(), params: Some(params(Some(1))) }).unwrap();
    let srpm = SrpmFile { path: "/".to_string(), file_name: None };
    assert!(matches!(p.upload_request(&srpm, b"{}", b""), Err(OutError::NoFileName)));
}

#[test]
fn whirlpool_of_known_inputs() {
    assert_eq!(
        calculate_whirlpool(b"").to_vec(),
        hex("19FA61D75522A4669B44E39C1D2E1726C530232130D407F89AFEE0964997F7A73E83BE698B288FEBCF88E3E03C4F0757EA8964E59B63D93708B138CC42A66EB3")
    );
    assert_eq!(
        calculate_whirlpool(b"abc").to_vec(),
        hex("4E2448A4C6F486BB16B6562C73B4020BF3043E3A731BCE721AE1B303D97E6D4C7181EEBDB6C57E277D0E34957114CBD6C797FC9D95D8B582D225292076D4EEF5")
    );
}

#[test]
fn version_is_the_digest_prefix() {
    let v = version_of(b"abc");
    assert_eq!(v.digest.to_vec(), hex("4E2448A4C6F486BB16B6562C73B4020BF3043E3A731BCE721AE1B303D97E6D4C"));
    assert_eq!(v.to_hex_string(), "4E2448A4C6F486BB16B6562C73B42BF343E3A731BCE721AE1B33D97E6D4C");
}

#[test]
fn created_yields_the_version() {
    let v = conclude(201, b"abc").unwrap();
    assert_eq!(v.digest.to_vec(), hex("4E2448A4C6F486BB16B6562C73B4020BF3043E3A731BCE721AE1B303D97E6D4C"));
}

#[test]
fn refusals_by_status() {
    assert_eq!(conclude(400, b"abc"), Err(OutError::Refused(ResponseError::InvalidRequest)));
    assert_eq!(conclude(403, b"abc"), Err(OutError::Refused(ResponseError::AuthentificationFailure)));
    assert_eq!(conclude(200, b"abc"), Err(OutError::Refused(ResponseError::InvalidRequest)));
    assert_eq!(conclude(500, b"abc"), Err(OutError::Refused(ResponseError::InvalidRequest)));
}
