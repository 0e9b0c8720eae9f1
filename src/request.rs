use vstd::prelude::*;
use crate::bytes::{find_from, first_from, occurs_at, pieces, slice_to_vec, split_on, views};

verus! {

/// The most bytes of one connection that a request is parsed from; what
/// follows is not seen by the handlers.
pub const READ_BUFFER_SIZE: usize = 512;

/// The line terminator, CR LF.
pub open spec fn crlf() -> Seq<u8> {
    seq![13u8, 10u8]
}

/// The separator between the header lines and the body: an empty line.
pub open spec fn blank_line() -> Seq<u8> {
    seq![13u8, 10u8, 13u8, 10u8]
}

/// The separator between the tokens of the request line.
pub open spec fn space() -> Seq<u8> {
    seq![32u8]
}

/// What precedes the first empty line (all of `text` if there is none).
pub open spec fn head_of(text: Seq<u8>) -> Seq<u8> {
    match first_from(text, blank_line(), 0) {
        Some(i) => text.subrange(0, i),
        None => text,
    }
}

/// What follows the first empty line (nothing if there is none).
pub open spec fn body_of(text: Seq<u8>) -> Seq<u8> {
    match first_from(text, blank_line(), 0) {
        Some(i) => text.subrange(i + 4, text.len() as int),
        None => seq![],
    }
}

/// A parsed request, as plain byte sequences.
pub struct RequestModel {
    pub method: Seq<u8>,
    pub target: Seq<u8>,
    pub headers: Seq<Seq<u8>>,
    pub body: Seq<u8>,
}

/// The request that `text` spells, or `None` when its first line carries no
/// target beginning with `/`.
pub open spec fn parse_model(text: Seq<u8>) -> Option<RequestModel> {
    let lines = pieces(head_of(text), crlf());
    let parts = if lines.len() > 0 { pieces(lines[0], space()) } else { seq![] };
    if parts.len() < 2 || parts[1].len() == 0 || parts[1][0] != 47u8 {
        None
    } else {
        Some(
            RequestModel {
                method: parts[0],
                target: parts[1],
                headers: lines.subrange(1, lines.len() as int),
                body: body_of(text),
            },
        )
    }
}

/// One inbound request: method token, target path, raw header lines
/// (`Name: value`, in arrival order) and body.
pub struct Request {
    pub method: Vec<u8>,
    pub target: Vec<u8>,
    pub headers: Vec<Vec<u8>>,
    pub body: Vec<u8>,
}

impl View for Request {
    type V = RequestModel;

    open spec fn view(&self) -> RequestModel {
        RequestModel {
            method: self.method@,
            target: self.target@,
            headers: views(self.headers@),
            body: self.body@,
        }
    }
}

/// Parses decoded request text into a request; `None` marks a malformed
/// request line (fewer than two tokens, or a target not starting with `/`).
pub fn parse_text(text: &[u8]) -> (r: Option<Request>)
    ensures
        match r {
            Some(q) => parse_model(text@) == Some(q@),
            None => parse_model(text@).is_none(),
        },
{
    let sep: Vec<u8> = vec![13u8, 10u8, 13u8, 10u8];
    let crlf_v: Vec<u8> = vec![13u8, 10u8];
    let space_v: Vec<u8> = vec![32u8];
    assert(sep@ =~= blank_line());
    assert(crlf_v@ =~= crlf());
    assert(space_v@ =~= space());
    let found = find_from(text, sep.as_slice(), 0);
    let head: Vec<u8>;
    let body: Vec<u8>;
    match found {
        Some(i) => {
            let n = text.len();
            assert(occurs_at(text@, blank_line(), i as int));
            head = slice_to_vec(text, 0, i);
            body = slice_to_vec(text, i + 4, n);
        },
        None => {
            head = slice_to_vec(text, 0, text.len());
            body = Vec::new();
            assert(text@.subrange(0, text@.len() as int) =~= text@);
        },
    }
    assert(head@ =~= head_of(text@));
    assert(body@ =~= body_of(text@));
    let mut lines = split_on(head.as_slice(), crlf_v.as_slice());
    if lines.len() == 0 {
        return None;
    }
    let parts = split_on(lines[0].as_slice(), space_v.as_slice());
    if parts.len() < 2 || parts[1].len() == 0 || parts[1][0] != 47u8 {
        return None;
    }
    let method = slice_to_vec(parts[0].as_slice(), 0, parts[0].len());
    let target = slice_to_vec(parts[1].as_slice(), 0, parts[1].len());
    assert(method@ =~= parts@[0]@);
    assert(target@ =~= parts@[1]@);
    let ghost all = views(lines@);
    lines.remove(0);
    let q = Request { method, target, headers: lines, body };
    assert(q@.headers =~= all.subrange(1, all.len() as int));
    assert(q@ == parse_model(text@).unwrap());
    Some(q)
}

} // verus!
