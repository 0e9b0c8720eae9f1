use vstd::prelude::*;
use vstd::string::StringSliceAdditionalSpecFns;
use crate::bytes::{slice_to_vec, views};

verus! {

/// The status line of a successful response.
pub open spec fn ok_line() -> Seq<u8> {
    "HTTP/1.1 200 OK".spec_bytes()
}

/// The status line of a refused request.
pub open spec fn not_found_line() -> Seq<u8> {
    "HTTP/1.1 404 NOT FOUND".spec_bytes()
}

/// Appends `s` to `out`.
pub fn push_all(out: &mut Vec<u8>, s: &[u8])
    ensures
        final(out)@ == old(out)@ + s@,
{
    let mut k: usize = 0;
    while k < s.len()
        invariant
            k <= s.len(),
            out@ == old(out)@ + s@.subrange(0, k as int),
        decreases s.len() - k,
    {
        out.push(s[k]);
        assert(s@.subrange(0, k + 1) =~= s@.subrange(0, k as int).push(s@[k as int]));
        k = k + 1;
    }
    assert(s@.subrange(0, s@.len() as int) =~= s@);
}

/// The decimal digits of `n`, most significant first.
pub open spec fn decimal(n: nat) -> Seq<u8>
    decreases n,
{
    if n < 10 {
        seq![(48 + n) as u8]
    } else {
        decimal(n / 10).push((48 + n % 10) as u8)
    }
}

/// Appends the decimal digits of `n` to `out`.
pub fn push_decimal(out: &mut Vec<u8>, n: usize)
    ensures
        final(out)@ == old(out)@ + decimal(n as nat),
    decreases n,
{
    if n >= 10 {
        push_decimal(out, n / 10);
    }
    let d: u8 = (n % 10) as u8;
    out.push(48u8 + d);
    assert(out@ =~= old(out)@ + decimal(n as nat));
}

/// The response with status 200 and neither headers nor body.
pub open spec fn empty_ok() -> Seq<u8> {
    ok_line() + "\r\n\r\n".spec_bytes()
}

/// Builds `empty_ok()`.
pub fn make_empty_ok() -> (r: Vec<u8>)
    ensures
        r@ == empty_ok(),
{
    let mut r: Vec<u8> = Vec::new();
    push_all(&mut r, "HTTP/1.1 200 OK".as_bytes());
    push_all(&mut r, "\r\n\r\n".as_bytes());
    r
}

/// The response with status 404 and neither headers nor body.
pub open spec fn not_found() -> Seq<u8> {
    not_found_line() + "\r\n\r\n".spec_bytes()
}

/// Builds `not_found()`.
pub fn make_not_found() -> (r: Vec<u8>)
    ensures
        r@ == not_found(),
{
    let mut r: Vec<u8> = Vec::new();
    push_all(&mut r, "HTTP/1.1 404 NOT FOUND".as_bytes());
    push_all(&mut r, "\r\n\r\n".as_bytes());
    r
}

/// A 200 response carrying `body` as plain text, with its exact byte length.
pub open spec fn text_response(body: Seq<u8>) -> Seq<u8> {
    ok_line() + "\r\nContent-Type: text/plain\r\nContent-Length: ".spec_bytes() + decimal(
        body.len(),
    ) + "\r\n\r\n".spec_bytes() + body
}

/// A 200 response carrying `body` as raw octets, with its exact byte length.
pub open spec fn octet_response(body: Seq<u8>) -> Seq<u8> {
    ok_line() + "\r\nContent-Type: application/octet-stream\r\nContent-Length: ".spec_bytes()
        + decimal(body.len()) + "\r\n\r\n".spec_bytes() + body
}

/// Builds `text_response(body)`.
pub fn make_text_response(body: &[u8]) -> (r: Vec<u8>)
    ensures
        r@ == text_response(body@),
{
    let mut r: Vec<u8> = Vec::new();
    push_all(&mut r, "HTTP/1.1 200 OK".as_bytes());
    push_all(&mut r, "\r\nContent-Type: text/plain\r\nContent-Length: ".as_bytes());
    push_decimal(&mut r, body.len());
    push_all(&mut r, "\r\n\r\n".as_bytes());
    push_all(&mut r, body);
    r
}

/// Builds `octet_response(body)`.
pub fn make_octet_response(body: &[u8]) -> (r: Vec<u8>)
    ensures
        r@ == octet_response(body@),
{
    let mut r: Vec<u8> = Vec::new();
    push_all(&mut r, "HTTP/1.1 200 OK".as_bytes());
    push_all(&mut r, "\r\nContent-Type: application/octet-stream\r\nContent-Length: ".as_bytes());
    push_decimal(&mut r, body.len());
    push_all(&mut r, "\r\n\r\n".as_bytes());
    push_all(&mut r, body);
    r
}

/// What follows `prefix` in `target`; all of `target` when it does not
/// start with `prefix`.
pub open spec fn after_prefix(target: Seq<u8>, prefix: Seq<u8>) -> Seq<u8> {
    if prefix.len() <= target.len() && target.subrange(0, prefix.len() as int) == prefix {
        target.subrange(prefix.len() as int, target.len() as int)
    } else {
        target
    }
}

/// Copies what follows `prefix` in `target` (all of it when `target` does
/// not start with `prefix`).
pub fn strip_prefix(target: &[u8], prefix: &[u8]) -> (r: Vec<u8>)
    ensures
        r@ == after_prefix(target@, prefix@),
{
    let n = target.len();
    if crate::bytes::has_at(target, prefix, 0) {
        slice_to_vec(target, prefix.len(), n)
    } else {
        assert(prefix@.len() <= target@.len() ==> target@.subrange(0, prefix@.len() as int)
            != prefix@);
        let r = slice_to_vec(target, 0, n);
        assert(r@ =~= target@);
        r
    }
}

/// The path prefix that the echo route captures after.
pub open spec fn echo_prefix() -> Seq<u8> {
    "/echo/".spec_bytes()
}

/// The path prefix that the file routes capture after.
pub open spec fn files_prefix() -> Seq<u8> {
    "/files/".spec_bytes()
}

/// ASCII lower case of one byte.
pub open spec fn lower(b: u8) -> u8 {
    if 65 <= b <= 90 {
        (b + 32) as u8
    } else {
        b
    }
}

/// `a` and `b` are equal up to ASCII case.
pub open spec fn same_ignoring_case(a: Seq<u8>, b: Seq<u8>) -> bool {
    a.len() == b.len() && forall|i: int| 0 <= i < a.len() ==> lower(a[i]) == lower(b[i])
}

/// `s` without its first byte when that byte is a space.
pub open spec fn drop_one_space(s: Seq<u8>) -> Seq<u8> {
    if s.len() > 0 && s[0] == 32u8 {
        s.drop_first()
    } else {
        s
    }
}

/// The value of header line `line` when its name (before the first `:`)
/// equals `name` up to ASCII case; the value is what follows the colon,
/// less one space right after it when there is one.
pub open spec fn header_value(line: Seq<u8>, name: Seq<u8>) -> Option<Seq<u8>> {
    match crate::bytes::first_from(line, seq![58u8], 0) {
        Some(c) => if same_ignoring_case(line.subrange(0, c), name) {
            Some(drop_one_space(line.subrange(c + 1, line.len() as int)))
        } else {
            None
        },
        None => None,
    }
}

/// The value of the first of `lines` (from index `i` on) named `name`.
pub open spec fn lookup_from(lines: Seq<Seq<u8>>, name: Seq<u8>, i: int) -> Option<Seq<u8>>
    decreases lines.len() - i,
{
    if i < 0 || i >= lines.len() {
        None
    } else if header_value(lines[i], name) is Some {
        header_value(lines[i], name)
    } else {
        lookup_from(lines, name, i + 1)
    }
}

/// The value of the first header line named `name`, up to ASCII case.
pub open spec fn lookup_header(lines: Seq<Seq<u8>>, name: Seq<u8>) -> Option<Seq<u8>> {
    lookup_from(lines, name, 0)
}

/// The name of the header that the user-agent handler reports.
pub open spec fn user_agent_name() -> Seq<u8> {
    "user-agent".spec_bytes()
}

/// ASCII lower case of `b`.
fn lower_byte(b: u8) -> (r: u8)
    ensures
        r == lower(b),
{
    if 65 <= b && b <= 90 {
        b + 32
    } else {
        b
    }
}

/// Whether `a[lo..hi]` equals `b` up to ASCII case.
fn equal_ignoring_case(a: &[u8], lo: usize, hi: usize, b: &[u8]) -> (r: bool)
    requires
        lo <= hi <= a.len(),
    ensures
        r == same_ignoring_case(a@.subrange(lo as int, hi as int), b@),
{
    if hi - lo != b.len() {
        return false;
    }
    let mut k: usize = 0;
    while k < b.len()
        invariant
            hi - lo == b.len(),
            lo <= hi <= a.len(),
            k <= b.len(),
            forall|i: int| 0 <= i < k ==> lower(a@[lo + i]) == lower(b@[i]),
        decreases b.len() - k,
    {
        if lower_byte(a[lo + k]) != lower_byte(b[k]) {
            assert(a@.subrange(lo as int, hi as int)[k as int] == a@[lo + k]);
            return false;
        }
        k = k + 1;
    }
    assert forall|i: int| 0 <= i < b@.len() implies lower(a@.subrange(lo as int, hi as int)[i])
        == lower(b@[i]) by {
        assert(a@.subrange(lo as int, hi as int)[i] == a@[lo + i]);
    }
    true
}

/// The value of header line `line` when it is named `name`.
fn value_of(line: &[u8], name: &[u8]) -> (r: Option<Vec<u8>>)
    ensures
        match r {
            Some(v) => header_value(line@, name@) == Some(v@),
            None => header_value(line@, name@) is None,
        },
{
    let colon: Vec<u8> = vec![58u8];
    assert(colon@ =~= seq![58u8]);
    match crate::bytes::find_from(line, colon.as_slice(), 0) {
        Some(c) => {
            if !equal_ignoring_case(line, 0, c, name) {
                return None;
            }
            let n = line.len();
            let k: usize = if c + 1 < n && line[c + 1] == 32u8 {
                c + 2
            } else {
                c + 1
            };
            let v = slice_to_vec(line, k, n);
            assert(v@ =~= drop_one_space(line@.subrange(c + 1, n as int)));
            Some(v)
        },
        None => None,
    }
}

/// The value of the first of `headers` named `name`, up to ASCII case.
pub fn find_header(headers: &Vec<Vec<u8>>, name: &[u8]) -> (r: Option<Vec<u8>>)
    ensures
        match r {
            Some(v) => lookup_header(views(headers@), name@) == Some(v@),
            None => lookup_header(views(headers@), name@) is None,
        },
{
    let mut i: usize = 0;
    while i < headers.len()
        invariant
            i <= headers.len(),
            lookup_header(views(headers@), name@) == lookup_from(views(headers@), name@, i as int),
        decreases headers.len() - i,
    {
        match value_of(headers[i].as_slice(), name) {
            Some(v) => {
                return Some(v);
            },
            None => {},
        }
        i = i + 1;
    }
    None
}

/// Whether `a` and `b` hold the same bytes.
pub fn same_bytes(a: &[u8], b: &[u8]) -> (r: bool)
    ensures
        r == (a@ == b@),
{
    if a.len() != b.len() {
        return false;
    }
    let r = crate::bytes::has_at(a, b, 0);
    assert(a@.subrange(0, b@.len() as int) =~= a@);
    r
}

/// The handlers that a route can name; `BadResponse` answers every request
/// that no route takes.
#[derive(PartialEq, Eq, Structural, Clone, Copy, Debug)]
pub enum HandlerId {
    Index,
    Echo,
    UserAgent,
    GetFile,
    PostFile,
    BadResponse,
}

/// The handler that a route name selects; an unknown name selects
/// `BadResponse`.
pub open spec fn handler_named(name: Seq<u8>) -> HandlerId {
    if name == "index".spec_bytes() {
        HandlerId::Index
    } else if name == "echo".spec_bytes() {
        HandlerId::Echo
    } else if name == "user_agent".spec_bytes() {
        HandlerId::UserAgent
    } else if name == "get_file".spec_bytes() {
        HandlerId::GetFile
    } else if name == "post_file".spec_bytes() {
        HandlerId::PostFile
    } else {
        HandlerId::BadResponse
    }
}

/// Selects the handler for a route name.
pub fn get_route_method(route: &str) -> (r: HandlerId)
    ensures
        r == handler_named(route.spec_bytes()),
{
    let b = route.as_bytes();
    if same_bytes(b, "index".as_bytes()) {
        HandlerId::Index
    } else if same_bytes(b, "echo".as_bytes()) {
        HandlerId::Echo
    } else if same_bytes(b, "user_agent".as_bytes()) {
        HandlerId::UserAgent
    } else if same_bytes(b, "get_file".as_bytes()) {
        HandlerId::GetFile
    } else if same_bytes(b, "post_file".as_bytes()) {
        HandlerId::PostFile
    } else {
        HandlerId::BadResponse
    }
}

/// Answers `/`: 200 with an empty body, whatever the request holds.
pub fn index_handler(target: &[u8], headers: &Vec<Vec<u8>>, body: &[u8]) -> (r: Vec<u8>)
    ensures
        r@ == empty_ok(),
{
    make_empty_ok()
}

/// Answers `/echo/<text>`: 200 with `<text>` as a plain-text body.
pub fn echo_handler(target: &[u8], headers: &Vec<Vec<u8>>, body: &[u8]) -> (r: Vec<u8>)
    ensures
        r@ == text_response(after_prefix(target@, echo_prefix())),
{
    let text = strip_prefix(target, "/echo/".as_bytes());
    make_text_response(text.as_slice())
}

/// Answers `/user-agent`: 200 with the value of the first `User-Agent`
/// header (name compared up to ASCII case), or 404 when there is none.
pub fn user_agent_handler(target: &[u8], headers: &Vec<Vec<u8>>, body: &[u8]) -> (r: Vec<u8>)
    ensures
        r@ == match lookup_header(views(headers@), user_agent_name()) {
            Some(v) => text_response(v),
            None => not_found(),
        },
{
    match find_header(headers, "user-agent".as_bytes()) {
        Some(v) => make_text_response(v.as_slice()),
        None => make_not_found(),
    }
}

/// Answers every request that no route takes: 404 with an empty body.
pub fn bad_response_handler(target: &[u8], headers: &Vec<Vec<u8>>, body: &[u8]) -> (r: Vec<u8>)
    ensures
        r@ == not_found(),
{
    make_not_found()
}

/// The file that `/files/<name>` names: the base directory followed by
/// `<name>`, joined as they are.
pub open spec fn file_path_of(base_dir: Seq<u8>, target: Seq<u8>) -> Seq<u8> {
    base_dir + after_prefix(target, files_prefix())
}

/// Builds the path of the file that `target` names under `base_dir`.
pub fn file_path(base_dir: &[u8], target: &[u8]) -> (r: Vec<u8>)
    ensures
        r@ == file_path_of(base_dir@, target@),
{
    let name = strip_prefix(target, "/files/".as_bytes());
    let mut r = slice_to_vec(base_dir, 0, base_dir.len());
    assert(r@ =~= base_dir@);
    push_all(&mut r, name.as_slice());
    r
}

/// The answer to a file read: its exact bytes as octets, or 404 when the
/// file could not be read.
pub open spec fn get_file_answer(contents: Option<Seq<u8>>) -> Seq<u8> {
    match contents {
        Some(c) => octet_response(c),
        None => not_found(),
    }
}

/// Builds the answer to `GET /files/<name>` from what reading the file gave.
pub fn get_file_response(contents: Option<&[u8]>) -> (r: Vec<u8>)
    ensures
        r@ == get_file_answer(
            match contents {
                Some(c) => Some(c@),
                None => None,
            },
        ),
{
    match contents {
        Some(c) => make_octet_response(c),
        None => make_not_found(),
    }
}

/// The answer to a file write: 200 when it succeeded, else 404.
pub open spec fn post_file_answer(written: bool) -> Seq<u8> {
    if written {
        empty_ok()
    } else {
        not_found()
    }
}

/// Builds the answer to `POST /files/<name>` from whether the write succeeded.
pub fn post_file_response(written: bool) -> (r: Vec<u8>)
    ensures
        r@ == post_file_answer(written),
{
    if written {
        make_empty_ok()
    } else {
        make_not_found()
    }
}

} // verus!
