use copr_resource::ops::concourse_in::{self, InError, MAX_N_BYTES};
use copr_resource::ops::concourse_out::{self, NotImplemented};
use copr_resource::ops::error::{MiscError, ResponseError};
use copr_resource::ops::interface::{ResourceParams, ResourceSource, ResourceVersion};
use copr_resource::ops::{rcheck, rin};

fn source() -> ResourceSource {
    ResourceSource { login: "me".to_string(), token: "SECRET".to_string(), url: "https://copr".to_string() }
}

#[test]
fn default_params_follow_the_readme() {
    let p = ResourceParams::default();
    assert_eq!(p.rpmbuild_dir, ".");
    assert_eq!(p.project_id, None);
    assert_eq!(p.regex, Some(r".*\.src\.rpm".to_string()));
    assert_eq!(p.chroots, Some(vec!["fedora-25-x86_64".to_string()]));
    assert_eq!(p.enable_net, Some(false));
    assert_eq!(p.max_n_bytes, Some(1_000_000_000));
}

#[test]
fn versions_compare_by_digest() {
    let a = ResourceVersion { digest: [7u8; 32] };
    let b = ResourceVersion { digest: [7u8; 32] };
    let mut d = [7u8; 32];
    d[31] = 8;
    let c = ResourceVersion { digest: d };
    assert!(a == b);
    assert!(!(a != b));
    assert!(a != c);
    assert!(!(a == c));
    assert!(a == a);
}

#[test]
fn digest_hex_has_no_leading_zeros() {
    let mut d = [0u8; 32];
    d[0] = 0xab;
    d[1] = 0x0a;
    d[2] = 0x10;
    d[3] = 0xff;
    let v = ResourceVersion { digest: d };
    let mut expected = String::from("ABA10FF");
    for _ in 4..32 {
        expected.push('0');
    }
    assert_eq!(v.to_hex_string(), expected);
}

#[test]
fn digest_hex_of_zero_version() {
    let v = ResourceVersion { digest: [0u8; 32] };
    assert_eq!(v.to_hex_string(), "0".repeat(32));
}

#[test]
fn response_error_texts() {
    assert_eq!(ResponseError::InvalidRequest.message(), "Invalid request");
    assert_eq!(ResponseError::AuthentificationFailure.message(), "Authentification failed");
    assert_eq!(ResponseError::InvalidRequest.description(), "BadRequest/400");
    assert_eq!(ResponseError::AuthentificationFailure.description(), "Forbidden/403");
    assert_eq!(MiscError::X.message(), "X");
    assert_eq!(MiscError::X.description(), "X");
}

#[test]
fn check_reports_no_versions() {
    let input = rcheck::Input { version: Some(ResourceVersion { digest: [1u8; 32] }), source: source() };
    assert!(rcheck::execute(input).is_empty());
    let input = rcheck::Input { version: None, source: source() };
    assert!(rcheck::execute(input).is_empty());
}

#[test]
fn in_reports_the_zero_version() {
    let out = rin::execute("/tmp/get", rin::Input {});
    assert!(out.version == ResourceVersion { digest: [0u8; 32] });
}

#[test]
fn early_upload_size_limit() {
    assert_eq!(MAX_N_BYTES, 250_000_000);
    assert_eq!(concourse_in::check_size(250_000_000), Ok(()));
    assert_eq!(concourse_in::check_size(250_000_001), Err(InError::TooBig));
    assert_eq!(concourse_in::check_size(0), Ok(()));
}

#[test]
fn early_upload_metadata() {
    let p = concourse_in::Params {
        project_id: 9,
        login: "l".to_string(),
        username: "u".to_string(),
        token: "t".to_string(),
        url: " https://x ".to_string(),
        chroots: vec!["a".to_string(), "b".to_string()],
        enable_net: true,
        max_n_bytes: 5,
    };
    let m = p.into_metadata();
    assert_eq!(m.project_id, 9);
    assert_eq!(m.chroots, vec!["a".to_string(), "b".to_string()]);
    assert!(m.enable_net);
}

#[test]
fn unfinished_out_fails() {
    let r = concourse_out::execute("/tmp/x.src.rpm", concourse_out::Params { x: "y".to_string() });
    assert_eq!(r, Err(NotImplemented));
}
