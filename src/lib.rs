//! Request parsing, first-match routing and response synthesis for a small
//! HTTP/1.1-shaped server. Sockets and the file system stay with the caller:
//! the library hands back an `Action` that says what to write or which file
//! to touch.

pub mod bytes;
pub mod handler;
pub mod request;
pub mod route;
pub mod server;

pub use handler::{
    bad_response_handler, echo_handler, get_file_response, get_route_method, index_handler,
    post_file_response, user_agent_handler, HandlerId,
};
pub use request::{parse_text, Request, READ_BUFFER_SIZE};
pub use route::{first_taken, Route, RouteTable, TableError};
pub use server::{dispatch, plan, plan_text, Action};
