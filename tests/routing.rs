use http_server::{
    bad_response_handler, echo_handler, get_file_response, get_route_method, index_handler,
    first_taken, parse_text, plan, plan_text, post_file_response, user_agent_handler, Action,
    HandlerId, Route, RouteTable, TableError,
};

fn respond_bytes(a: Action) -> Vec<u8> {
    match a {
        Action::Respond(b) => b,
        Action::ReadFile(p) => panic!("expected a response, got a read of {:?}", p),
        Action::WriteFile(p, _) => panic!("expected a response, got a write to {:?}", p),
    }
}

fn respond(raw: &[u8]) -> String {
    let table = RouteTable::standard().unwrap();
    String::from_utf8(respond_bytes(plan(&table, b"/srv/", raw))).unwrap()
}

fn text_ok(body: &str) -> String {
    format!(
        "HTTP/1.1 200 OK\r\nContent-Type: text/plain\r\nContent-Length: {}\r\n\r\n{}",
        body.len(),
        body
    )
}

const NOT_FOUND: &str = "HTTP/1.1 404 NOT FOUND\r\n\r\n";
const EMPTY_OK: &str = "HTTP/1.1 200 OK\r\n\r\n";

#[test]
fn echo_returns_suffix() {
    let out = respond(b"GET /echo/abc HTTP/1.1\r\nHost: localhost\r\n\r\n");
    assert_eq!(out, "HTTP/1.1 200 OK\r\nContent-Type: text/plain\r\nContent-Length: 3\r\n\r\nabc");
}

#[test]
fn echo_counts_bytes_not_chars() {
    let out = respond("GET /echo/héllo HTTP/1.1\r\n\r\n".as_bytes());
    assert_eq!(out, text_ok("héllo"));
    assert!(out.contains("Content-Length: 6\r\n"));
}

#[test]
fn echo_two_digit_length() {
    let out = respond(b"GET /echo/abcdefghijkl HTTP/1.1\r\n\r\n");
    assert!(out.contains("Content-Length: 12\r\n"));
    assert!(out.ends_with("\r\n\r\nabcdefghijkl"));
}

#[test]
fn echo_keeps_later_prefix_text() {
    let out = respond(b"GET /echo/a/echo/b HTTP/1.1\r\n\r\n");
    assert_eq!(out, text_ok("a/echo/b"));
}

#[test]
fn echo_empty_suffix() {
    let out = respond(b"GET /echo/ HTTP/1.1\r\n\r\n");
    assert_eq!(out, text_ok(""));
}

#[test]
fn echo_invalid_utf8_is_replaced() {
    let out = respond(b"GET /echo/a\xffb HTTP/1.1\r\n\r\n");
    assert_eq!(out, text_ok("a\u{FFFD}b"));
}

#[test]
fn index_ignores_headers() {
    assert_eq!(respond(b"GET / HTTP/1.1\r\n\r\n"), EMPTY_OK);
    assert_eq!(
        respond(b"GET / HTTP/1.1\r\nUser-Agent: x\r\nAccept: */*\r\n\r\nsome body"),
        EMPTY_OK
    );
}

#[test]
fn user_agent_found() {
    let out = respond(b"GET /user-agent HTTP/1.1\r\nHost: h\r\nUser-Agent: foo\r\n\r\n");
    assert_eq!(out, text_ok("foo"));
}

#[test]
fn user_agent_name_ignores_case() {
    let out = respond(b"GET /user-agent HTTP/1.1\r\nuser-AGENT: curl/8.0\r\n\r\n");
    assert_eq!(out, text_ok("curl/8.0"));
}

#[test]
fn user_agent_missing_is_404() {
    assert_eq!(respond(b"GET /user-agent HTTP/1.1\r\nHost: h\r\n\r\n"), NOT_FOUND);
}

#[test]
fn user_agent_first_header_wins() {
    let out = respond(b"GET /user-agent HTTP/1.1\r\nUser-Agent: one\r\nUser-Agent: two\r\n\r\n");
    assert_eq!(out, text_ok("one"));
}

#[test]
fn unknown_method_is_404() {
    assert_eq!(respond(b"DELETE / HTTP/1.1\r\n\r\n"), NOT_FOUND);
}

#[test]
fn unknown_path_is_404() {
    assert_eq!(respond(b"GET /nowhere HTTP/1.1\r\n\r\n"), NOT_FOUND);
}

#[test]
fn method_is_case_sensitive() {
    assert_eq!(respond(b"get / HTTP/1.1\r\n\r\n"), NOT_FOUND);
}

#[test]
fn malformed_requests_are_404() {
    assert_eq!(respond(b""), NOT_FOUND);
    assert_eq!(respond(b"GARBAGE"), NOT_FOUND);
    assert_eq!(respond(b"GET\r\n\r\n"), NOT_FOUND);
    assert_eq!(respond(b"GET nopath HTTP/1.1\r\n\r\n"), NOT_FOUND);
}

#[test]
fn request_without_blank_line_still_routes() {
    assert_eq!(respond(b"GET / HTTP/1.1"), EMPTY_OK);
}

#[test]
fn get_file_reads_under_base_dir() {
    let table = RouteTable::standard().unwrap();
    match plan(&table, b"/srv/", b"GET /files/a.txt HTTP/1.1\r\n\r\n") {
        Action::ReadFile(p) => assert_eq!(p, b"/srv/a.txt".to_vec()),
        _ => panic!("expected a file read"),
    }
}

#[test]
fn get_file_answers_exact_bytes() {
    let contents: &[u8] = b"hello\x00\xff";
    let out = get_file_response(Some(contents));
    let mut want = b"HTTP/1.1 200 OK\r\nContent-Type: application/octet-stream\r\nContent-Length: 7\r\n\r\n".to_vec();
    want.extend_from_slice(contents);
    assert_eq!(out, want);
}

#[test]
fn get_file_missing_is_404() {
    assert_eq!(get_file_response(None), NOT_FOUND.as_bytes().to_vec());
}

#[test]
fn post_file_writes_body() {
    let table = RouteTable::standard().unwrap();
    match plan(&table, b"/srv/", b"POST /files/new HTTP/1.1\r\nContent-Length: 5\r\n\r\n12345") {
        Action::WriteFile(p, b) => {
            assert_eq!(p, b"/srv/new".to_vec());
            assert_eq!(b, b"12345".to_vec());
        }
        _ => panic!("expected a file write"),
    }
}

#[test]
fn post_file_outcomes() {
    assert_eq!(post_file_response(true), EMPTY_OK.as_bytes().to_vec());
    assert_eq!(post_file_response(false), NOT_FOUND.as_bytes().to_vec());
}

#[test]
fn earlier_route_shadows_later() {
    let broad = Route { name: "index".to_string(), pattern: "^/e".to_string(), method: b"GET".to_vec() };
    let narrow = Route {
        name: "echo".to_string(),
        pattern: "^/echo/(.*)$".to_string(),
        method: b"GET".to_vec(),
    };
    let table = RouteTable::new(vec![broad, narrow]).unwrap();
    assert_eq!(table.find_route(b"GET", b"/echo/hi"), Some(0));
    let out = respond_bytes(plan_text(&table, b"", b"GET /echo/hi HTTP/1.1\r\n\r\n"));
    assert_eq!(out, EMPTY_OK.as_bytes().to_vec());
}

#[test]
fn later_route_answers_when_earlier_does_not_take() {
    let table = RouteTable::standard().unwrap();
    assert_eq!(table.find_route(b"POST", b"/files/x"), Some(4));
    assert_eq!(table.find_route(b"GET", b"/files/x"), Some(3));
    assert_eq!(table.find_route(b"PUT", b"/files/x"), None);
}

#[test]
fn invalid_pattern_refuses_table() {
    let good = Route { name: "index".to_string(), pattern: "^/$".to_string(), method: b"GET".to_vec() };
    let bad = Route { name: "echo".to_string(), pattern: "(".to_string(), method: b"GET".to_vec() };
    match RouteTable::new(vec![good, bad]) {
        Err(e) => assert_eq!(e, TableError::InvalidPattern(1)),
        Ok(_) => panic!("a table with an invalid pattern was accepted"),
    }
}

#[test]
fn first_taken_picks_earliest_flag() {
    assert_eq!(first_taken(&vec![false, true, true]), Some(1));
    assert_eq!(first_taken(&vec![true, true]), Some(0));
    assert_eq!(first_taken(&vec![false, false]), None);
    assert_eq!(first_taken(&vec![]), None);
}

#[test]
fn takes_flags_every_route() {
    let table = RouteTable::standard().unwrap();
    assert_eq!(table.takes(b"GET", b"/files/a"), vec![false, false, false, true, false]);
    assert_eq!(table.takes(b"POST", b"/files/a"), vec![false, false, false, false, true]);
}

#[test]
fn user_agent_keeps_value_after_one_space() {
    let out = respond(b"GET /user-agent HTTP/1.1\r\nUser-Agent:  x\r\n\r\n");
    assert_eq!(out, text_ok(" x"));
    assert!(out.contains("Content-Length: 2\r\n"));
    let out = respond(b"GET /user-agent HTTP/1.1\r\nUser-Agent:y\r\n\r\n");
    assert_eq!(out, text_ok("y"));
}

#[test]
fn successive_echo_requests_keep_their_suffixes() {
    let a = respond(b"GET /echo/first HTTP/1.1\r\n\r\n");
    let b = respond(b"GET /echo/second HTTP/1.1\r\n\r\n");
    assert_eq!(a, text_ok("first"));
    assert_eq!(b, text_ok("second"));
}

#[test]
fn request_is_cut_at_read_buffer() {
    let mut raw = b"GET /echo/".to_vec();
    raw.extend(std::iter::repeat(b'a').take(600));
    let out = respond(&raw);
    assert_eq!(out, text_ok(&"a".repeat(502)));
}

#[test]
fn parse_splits_lines_headers_and_body() {
    let q = parse_text(b"POST /files/x HTTP/1.1\r\nA: 1\r\nB: 2\r\n\r\nline1\r\nline2").unwrap();
    assert_eq!(q.method, b"POST".to_vec());
    assert_eq!(q.target, b"/files/x".to_vec());
    assert_eq!(q.headers, vec![b"A: 1".to_vec(), b"B: 2".to_vec()]);
    assert_eq!(q.body, b"line1\r\nline2".to_vec());
}

#[test]
fn route_names_select_handlers() {
    assert_eq!(get_route_method("index"), HandlerId::Index);
    assert_eq!(get_route_method("echo"), HandlerId::Echo);
    assert_eq!(get_route_method("user_agent"), HandlerId::UserAgent);
    assert_eq!(get_route_method("get_file"), HandlerId::GetFile);
    assert_eq!(get_route_method("post_file"), HandlerId::PostFile);
    assert_eq!(get_route_method("other"), HandlerId::BadResponse);
}

#[test]
fn handlers_called_directly() {
    let headers = vec![b"User-Agent: ua".to_vec()];
    assert_eq!(index_handler(b"/", &headers, b""), EMPTY_OK.as_bytes().to_vec());
    assert_eq!(echo_handler(b"/echo/xy", &headers, b""), text_ok("xy").into_bytes());
    assert_eq!(user_agent_handler(b"/user-agent", &headers, b""), text_ok("ua").into_bytes());
    assert_eq!(user_agent_handler(b"/user-agent", &vec![], b""), NOT_FOUND.as_bytes().to_vec());
    assert_eq!(bad_response_handler(b"/x", &headers, b"b"), NOT_FOUND.as_bytes().to_vec());
}
