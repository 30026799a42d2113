//! The `multipart/form-data` body of an upload, built in memory.
//!
//! Each part is a block header naming the field (and optionally a file name
//! and a content type) followed by the part's bytes; the body ends with the
//! closing boundary.
use vstd::prelude::*;
use vstd::utf8::encode_utf8;

verus! {

/// The UTF-8 bytes of a text.
pub open spec fn utf8(s: Seq<char>) -> Seq<u8> {
    encode_utf8(s)
}

/// The opening boundary line of a part and its `Content-Disposition` line
/// up to the field name.
pub open spec fn disposition(boundary: Seq<char>, name: Seq<char>) -> Seq<u8> {
    utf8("--"@) + utf8(boundary) + utf8("\r\n"@) + utf8("Content-Disposition: form-data; name=\""@)
        + utf8(name) + utf8("\""@)
}

/// The optional file name of a part.
pub open spec fn filename_field(filename: Option<Seq<char>>) -> Seq<u8> {
    match filename {
        Some(f) => utf8("; filename=\""@) + utf8(f) + utf8("\""@),
        None => Seq::empty(),
    }
}

/// The optional content type line of a part.
pub open spec fn content_type_field(content_type: Option<Seq<char>>) -> Seq<u8> {
    match content_type {
        Some(c) => utf8("\r\nContent-Type: "@) + utf8(c),
        None => Seq::empty(),
    }
}

/// The block header of a part: the opening boundary line, the
/// `Content-Disposition` line with the field name and optional file name,
/// the optional `Content-Type` line and the blank line that ends it.
pub open spec fn part_header(
    boundary: Seq<char>,
    name: Seq<char>,
    filename: Option<Seq<char>>,
    content_type: Option<Seq<char>>,
) -> Seq<u8> {
    disposition(boundary, name) + filename_field(filename) + content_type_field(content_type)
        + utf8("\r\n\r\n"@)
}

/// A whole part: its block header, its bytes and the blank line after them.
pub open spec fn part(
    boundary: Seq<char>,
    name: Seq<char>,
    filename: Option<Seq<char>>,
    content_type: Option<Seq<char>>,
    content: Seq<u8>,
) -> Seq<u8> {
    part_header(boundary, name, filename, content_type) + content + utf8("\r\n\r\n"@)
}

/// The bytes of a part stand verbatim right after its block header, and the
/// part ends with a blank line.
pub proof fn part_holds_content(
    boundary: Seq<char>,
    name: Seq<char>,
    filename: Option<Seq<char>>,
    content_type: Option<Seq<char>>,
    content: Seq<u8>,
)
    ensures
        ({
            let h = part_header(boundary, name, filename, content_type);
            let p = part(boundary, name, filename, content_type, content);
            &&& p.subrange(0, h.len() as int) == h
            &&& p.subrange(h.len() as int, (h.len() + content.len()) as int) == content
            &&& p.subrange((h.len() + content.len()) as int, p.len() as int) == utf8("\r\n\r\n"@)
        }),
{
    let h = part_header(boundary, name, filename, content_type);
    let p = part(boundary, name, filename, content_type, content);
    assert(p.subrange(0, h.len() as int) =~= h);
    assert(p.subrange(h.len() as int, (h.len() + content.len()) as int) =~= content);
    assert(p.subrange((h.len() + content.len()) as int, p.len() as int) =~= utf8("\r\n\r\n"@));
}

/// The line that closes a multipart body.
pub open spec fn closing(boundary: Seq<char>) -> Seq<u8> {
    utf8("--"@) + utf8(boundary) + utf8("--\r\n"@)
}

/// The media type of a multipart body with the given boundary.
pub open spec fn multipart_media_type(boundary: Seq<char>) -> Seq<char> {
    "multipart/form-data; boundary="@ + boundary
}

/// The view of an optional text.
pub open spec fn opt_str_view(s: Option<&str>) -> Option<Seq<char>> {
    match s {
        Some(t) => Some(t@),
        None => None,
    }
}

/// Appends bytes to a buffer.
pub fn push_bytes(buf: &mut Vec<u8>, bytes: &[u8])
    ensures
        final(buf)@ == old(buf)@ + bytes@,
{
    let ghost start = buf@;
    let mut i: usize = 0;
    while i < bytes.len()
        invariant
            i <= bytes@.len(),
            buf@ == start + bytes@.subrange(0, i as int),
        decreases bytes@.len() - i,
    {
        buf.push(bytes[i]);
        i = i + 1;
        assert(buf@ =~= start + bytes@.subrange(0, i as int));
    }
    assert(bytes@.subrange(0, bytes@.len() as int) =~= bytes@);
}

/// Appends the UTF-8 bytes of a text to a buffer.
pub fn push_str(buf: &mut Vec<u8>, s: &str)
    ensures
        final(buf)@ == old(buf)@ + utf8(s@),
{
    push_bytes(buf, s.as_bytes());
}

/// The media type of a multipart body with boundary `bound`.
pub fn multipart_mime(bound: &str) -> (m: String)
    ensures
        m@ == multipart_media_type(bound@),
{
    let m = "multipart/form-data; boundary=".to_owned();
    m.concat(bound)
}

/// The value of the `Content-Type` header of a multipart body with boundary
/// `bound`.
pub fn content_type(bound: &str) -> (m: String)
    ensures
        m@ == multipart_media_type(bound@),
{
    multipart_mime(bound)
}

/// Appends the block header of a part to a buffer.
fn push_part_header(
    buf: &mut Vec<u8>,
    boundary: &str,
    name: &str,
    filename: Option<&str>,
    content_type: Option<&str>,
)
    ensures
        final(buf)@ == old(buf)@ + part_header(
            boundary@,
            name@,
            opt_str_view(filename),
            opt_str_view(content_type),
        ),
{
    let ghost s0 = buf@;
    push_disposition(buf, boundary, name);
    let ghost s1 = buf@;
    match filename {
        Some(f) => {
            push_str(buf, "; filename=\"");
            push_str(buf, f);
            push_str(buf, "\"");
        },
        None => {},
    }
    assert(buf@ =~= s1 + filename_field(opt_str_view(filename)));
    let ghost s2 = buf@;
    match content_type {
        Some(c) => {
            push_str(buf, "\r\nContent-Type: ");
            push_str(buf, c);
        },
        None => {},
    }
    assert(buf@ =~= s2 + content_type_field(opt_str_view(content_type)));
    push_str(buf, "\r\n\r\n");
}

/// Appends the opening boundary line and the field name of a part.
fn push_disposition(buf: &mut Vec<u8>, boundary: &str, name: &str)
    ensures
        final(buf)@ == old(buf)@ + disposition(boundary@, name@),
{
    let ghost s0 = buf@;
    push_str(buf, "--");
    push_str(buf, boundary);
    push_str(buf, "\r\n");
    push_str(buf, "Content-Disposition: form-data; name=\"");
    push_str(buf, name);
    push_str(buf, "\"");
    assert(buf@ =~= s0 + disposition(boundary@, name@));
}

/// A multipart body under construction.
pub struct MultipartRequest {
    pub boundary: String,
    pub buffer: Vec<u8>,
}

/// A finished multipart upload: the headers to send and the body.
pub struct PreparedRequest {
    /// The value of the `Content-Type` header.
    pub content_type: String,
    /// The value of the `Content-Length` header: the length of the body.
    pub content_length: u64,
    /// The user of basic authentication.
    pub username: String,
    /// The password of basic authentication.
    pub password: Option<String>,
    pub body: Vec<u8>,
}

impl MultipartRequest {
    /// An empty body with the given boundary, `random` when none is given.
    pub fn from_request(boundary: Option<&str>) -> (r: MultipartRequest)
        ensures
            r.boundary@ == match boundary {
                Some(b) => b@,
                None => "random"@,
            },
            r.buffer@.len() == 0,
    {
        let b = match boundary {
            Some(b) => b,
            None => "random",
        };
        MultipartRequest { boundary: b.to_owned(), buffer: Vec::new() }
    }

    /// Appends a part named `name` that holds `stream`, with an optional file
    /// name and content type.
    pub fn add_stream(
        &mut self,
        name: &str,
        stream: &[u8],
        filename: Option<&str>,
        content_type: Option<&str>,
    )
        ensures
            final(self).boundary == old(self).boundary,
            final(self).buffer@ == old(self).buffer@ + part(
                old(self).boundary@,
                name@,
                opt_str_view(filename),
                opt_str_view(content_type),
                stream@,
            ),
    {
        let ghost s0 = self.buffer@;
        push_part_header(&mut self.buffer, self.boundary.as_str(), name, filename, content_type);
        let ghost s1 = self.buffer@;
        push_bytes(&mut self.buffer, stream);
        push_str(&mut self.buffer, "\r\n\r\n");
        assert(self.buffer@ =~= s1 + stream@ + utf8("\r\n\r\n"@));
    }

    /// Closes the body and prepares the headers of the upload: the multipart
    /// content type, the length of the body and basic authentication.
    pub fn send(self, username: String, password: Option<String>) -> (r: PreparedRequest)
        ensures
            r.body@ == self.buffer@ + closing(self.boundary@),
            r.content_type@ == multipart_media_type(self.boundary@),
            r.content_length == r.body@.len(),
            r.username == username,
            r.password == password,
    {
        let mut body = self.buffer;
        push_str(&mut body, "--");
        push_str(&mut body, self.boundary.as_str());
        push_str(&mut body, "--\r\n");
        let ct = multipart_mime(self.boundary.as_str());
        let len = body.len() as u64;
        PreparedRequest { content_type: ct, content_length: len, username, password, body }
    }
}

} // verus!
