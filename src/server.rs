use vstd::prelude::*;
use vstd::string::StringSliceAdditionalSpecFns;
use vstd::utf8::{encode_utf8, valid_utf8};
use crate::handler::{
    after_prefix, bad_response_handler, echo_handler, echo_prefix, empty_ok, file_path,
    file_path_of, files_prefix, get_file_answer, get_route_method, handler_named, index_handler,
    lookup_header, not_found, octet_response, text_response, user_agent_handler, user_agent_name,
    HandlerId,
};
use crate::request::{parse_model, parse_text, Request, RequestModel, READ_BUFFER_SIZE};
use crate::route::{first_route, RouteModel, RouteTable};
use crate::bytes::slice_to_vec;

verus! {

/// What the connection worker does next for one request: write a response,
/// or touch the file system and build the response from the outcome.
pub enum Action {
    /// Write these bytes back and close the connection.
    Respond(Vec<u8>),
    /// Read the file at this path; answer with `get_file_response`.
    ReadFile(Vec<u8>),
    /// Write the body (second) to the path (first); answer with
    /// `post_file_response`.
    WriteFile(Vec<u8>, Vec<u8>),
}

pub enum ActionModel {
    Respond(Seq<u8>),
    ReadFile(Seq<u8>),
    WriteFile(Seq<u8>, Seq<u8>),
}

impl View for Action {
    type V = ActionModel;

    open spec fn view(&self) -> ActionModel {
        match self {
            Action::Respond(b) => ActionModel::Respond(b@),
            Action::ReadFile(p) => ActionModel::ReadFile(p@),
            Action::WriteFile(p, b) => ActionModel::WriteFile(p@, b@),
        }
    }
}

/// What handler `id` does with request `q`, file paths taken under `base_dir`.
pub open spec fn dispatch_model(id: HandlerId, q: RequestModel, base_dir: Seq<u8>) -> ActionModel {
    match id {
        HandlerId::Index => ActionModel::Respond(empty_ok()),
        HandlerId::Echo => ActionModel::Respond(text_response(after_prefix(q.target, echo_prefix()))),
        HandlerId::UserAgent => ActionModel::Respond(
            match lookup_header(q.headers, user_agent_name()) {
                Some(v) => text_response(v),
                None => not_found(),
            },
        ),
        HandlerId::GetFile => ActionModel::ReadFile(file_path_of(base_dir, q.target)),
        HandlerId::PostFile => ActionModel::WriteFile(file_path_of(base_dir, q.target), q.body),
        HandlerId::BadResponse => ActionModel::Respond(not_found()),
    }
}

/// Runs handler `id` on request `q`.
pub fn dispatch(id: HandlerId, q: &Request, base_dir: &[u8]) -> (r: Action)
    ensures
        r@ == dispatch_model(id, q@, base_dir@),
{
    let t = q.target.as_slice();
    let b = q.body.as_slice();
    match id {
        HandlerId::Index => Action::Respond(index_handler(t, &q.headers, b)),
        HandlerId::Echo => Action::Respond(echo_handler(t, &q.headers, b)),
        HandlerId::UserAgent => Action::Respond(user_agent_handler(t, &q.headers, b)),
        HandlerId::GetFile => Action::ReadFile(file_path(base_dir, t)),
        HandlerId::PostFile => {
            let body = slice_to_vec(b, 0, b.len());
            assert(body@ =~= q.body@);
            Action::WriteFile(file_path(base_dir, t), body)
        },
        HandlerId::BadResponse => Action::Respond(bad_response_handler(t, &q.headers, b)),
    }
}

/// What the server does with decoded request text `text`: a malformed
/// request, or one that no route takes, is answered 404; otherwise the
/// handler named by the first route that takes it answers.
pub open spec fn plan_model(routes: Seq<RouteModel>, base_dir: Seq<u8>, text: Seq<u8>) -> ActionModel {
    match parse_model(text) {
        None => ActionModel::Respond(not_found()),
        Some(q) => match first_route(routes, q.method, q.target) {
            Some(i) => dispatch_model(handler_named(encode_utf8(routes[i].name)), q, base_dir),
            None => ActionModel::Respond(not_found()),
        },
    }
}

/// Decides what to do with one request, given as decoded text.
pub fn plan_text(table: &RouteTable, base_dir: &[u8], text: &[u8]) -> (r: Action)
    ensures
        r@ == plan_model(table@, base_dir@, text@),
{
    match parse_text(text) {
        None => Action::Respond(crate::handler::make_not_found()),
        Some(q) => match table.find_route(q.method.as_slice(), q.target.as_slice()) {
            Some(i) => {
                let id = get_route_method(table.routes[i].name.as_str());
                dispatch(id, &q, base_dir)
            },
            None => Action::Respond(bad_response_handler(q.target.as_slice(), &q.headers, q.body.as_slice())),
        },
    }
}

/// The text that decoding `raw` as UTF-8 gives, each invalid sequence
/// replaced by U+FFFD, as UTF-8 bytes.
pub uninterp spec fn lossy_text(raw: Seq<u8>) -> Seq<u8>;

/// Relies on `String::from_utf8_lossy`: the decoded text, with each invalid
/// sequence replaced, depends on the bytes alone, and valid UTF-8 comes back
/// unchanged.
#[verifier::external_body]
fn decode_lossy(raw: &[u8]) -> (r: Vec<u8>)
    ensures
        r@ == lossy_text(raw@),
        valid_utf8(raw@) ==> r@ == raw@,
{
    String::from_utf8_lossy(raw).into_owned().into_bytes()
}

/// The part of what a connection sent that fits the read buffer.
pub open spec fn received(raw: Seq<u8>) -> Seq<u8> {
    if raw.len() <= READ_BUFFER_SIZE {
        raw
    } else {
        raw.subrange(0, READ_BUFFER_SIZE as int)
    }
}

/// Decides what to do with the bytes that one connection sent: at most the
/// read buffer's worth is decoded and planned.
pub fn plan(table: &RouteTable, base_dir: &[u8], raw: &[u8]) -> (r: Action)
    ensures
        r@ == plan_model(table@, base_dir@, lossy_text(received(raw@))),
        valid_utf8(received(raw@)) ==> r@ == plan_model(table@, base_dir@, received(raw@)),
{
    let n = if raw.len() <= READ_BUFFER_SIZE { raw.len() } else { READ_BUFFER_SIZE };
    let chunk = slice_to_vec(raw, 0, n);
    assert(chunk@ =~= received(raw@));
    let text = decode_lossy(chunk.as_slice());
    plan_text(table, base_dir, text.as_slice())
}

/// Echo is the identity on the captured suffix: when the first route that
/// takes a request for `/echo/<t>` names the echo handler, the answer is 200
/// with body exactly `t` and a `Content-Length` of its byte count.
pub proof fn echo_returns_suffix(
    routes: Seq<RouteModel>,
    base_dir: Seq<u8>,
    text: Seq<u8>,
    t: Seq<u8>,
    q: RequestModel,
    i: int,
)
    requires
        parse_model(text) == Some(q),
        q.target == echo_prefix() + t,
        first_route(routes, q.method, q.target) == Some(i),
        handler_named(encode_utf8(routes[i].name)) == HandlerId::Echo,
    ensures
        plan_model(routes, base_dir, text) == ActionModel::Respond(text_response(t)),
{
    let p = echo_prefix();
    assert((p + t).subrange(0, p.len() as int) =~= p);
    assert((p + t).subrange(p.len() as int, (p + t).len() as int) =~= t);
}

/// A file request reads `<base_dir><name>` for `/files/<name>` when its
/// first route names the file reader; the answer is then the file's exact
/// bytes with their byte count, or 404 when the read fails.
pub proof fn file_read_answers_contents(
    routes: Seq<RouteModel>,
    base_dir: Seq<u8>,
    text: Seq<u8>,
    name: Seq<u8>,
    q: RequestModel,
    i: int,
    contents: Seq<u8>,
)
    requires
        parse_model(text) == Some(q),
        q.target == files_prefix() + name,
        first_route(routes, q.method, q.target) == Some(i),
        handler_named(encode_utf8(routes[i].name)) == HandlerId::GetFile,
    ensures
        plan_model(routes, base_dir, text) == ActionModel::ReadFile(base_dir + name),
        get_file_answer(Some(contents)) == octet_response(contents),
        get_file_answer(None) == not_found(),
{
    let p = files_prefix();
    assert((p + name).subrange(0, p.len() as int) =~= p);
    assert((p + name).subrange(p.len() as int, (p + name).len() as int) =~= name);
}

/// The index answers 200 with an empty body whatever the request's headers
/// and body.
pub proof fn index_ignores_request(q1: RequestModel, q2: RequestModel, b1: Seq<u8>, b2: Seq<u8>)
    ensures
        dispatch_model(HandlerId::Index, q1, b1) == dispatch_model(HandlerId::Index, q2, b2),
        dispatch_model(HandlerId::Index, q1, b1) == ActionModel::Respond(empty_ok()),
{
}

/// A request that no route takes, like a malformed one, is answered 404 with
/// an empty body.
pub proof fn unrouted_is_not_found(routes: Seq<RouteModel>, base_dir: Seq<u8>, text: Seq<u8>)
    requires
        parse_model(text) matches Some(q) ==> first_route(routes, q.method, q.target) is None,
    ensures
        plan_model(routes, base_dir, text) == ActionModel::Respond(not_found()),
{
}

} // verus!
