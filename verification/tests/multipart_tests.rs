use copr_resource::ops::multipart::{content_type, multipart_mime, MultipartRequest};

#[test]
fn default_boundary_is_random() {
    let m = MultipartRequest::from_request(None);
    assert_eq!(m.boundary, "random");
    assert!(m.buffer.is_empty());
    let m = MultipartRequest::from_request(Some("xyz"));
    assert_eq!(m.boundary, "xyz");
}

#[test]
fn part_with_file_name_and_type() {
    let mut m = MultipartRequest::from_request(Some("B"));
    m.add_stream("srpm", b"DATA", Some("a.src.rpm"), Some("application/x-rpm"));
    let expected: &[u8] = b"--B\r\nContent-Disposition: form-data; name=\"srpm\"; filename=\"a.src.rpm\"\r\nContent-Type: application/x-rpm\r\n\r\nDATA\r\n\r\n";
    assert_eq!(m.buffer.as_slice(), expected);
}

#[test]
fn bare_part() {
    let mut m = MultipartRequest::from_request(Some("B"));
    m.add_stream("x", b"", None, None);
    let expected: &[u8] = b"--B\r\nContent-Disposition: form-data; name=\"x\"\r\n\r\n\r\n\r\n";
    assert_eq!(m.buffer.as_slice(), expected);
}

#[test]
fn send_closes_the_body() {
    let mut m = MultipartRequest::from_request(Some("B"));
    m.add_stream("meta", b"{}", None, Some("application/json"));
    let r = m.send("user".to_string(), Some("pw".to_string()));
    let expected: &[u8] = b"--B\r\nContent-Disposition: form-data; name=\"meta\"\r\nContent-Type: application/json\r\n\r\n{}\r\n\r\n--B--\r\n";
    assert_eq!(r.body.as_slice(), expected);
    assert_eq!(r.content_length, expected.len() as u64);
    assert_eq!(r.content_type, "multipart/form-data; boundary=B");
    assert_eq!(r.username, "user");
    assert_eq!(r.password, Some("pw".to_string()));
}

#[test]
fn empty_body_is_just_the_closing() {
    let m = MultipartRequest::from_request(None);
    let r = m.send("u".to_string(), None);
    assert_eq!(r.body.as_slice(), b"--random--\r\n");
    assert_eq!(r.content_length, 12);
}

#[test]
fn multipart_media_type() {
    assert_eq!(multipart_mime("abc"), "multipart/form-data; boundary=abc");
    assert_eq!(content_type("abc"), "multipart/form-data; boundary=abc");
}

#[test]
fn non_ascii_file_name_is_utf8() {
    let mut m = MultipartRequest::from_request(Some("B"));
    m.add_stream("f", b"", Some("é"), None);
    let expected: &[u8] = b"--B\r\nContent-Disposition: form-data; name=\"f\"; filename=\"\xc3\xa9\"\r\n\r\n\r\n\r\n";
    assert_eq!(m.buffer.as_slice(), expected);
}
