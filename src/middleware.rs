//! Ensures that a well formed response is returned when a handler fails.
use vstd::prelude::*;
use vstd::string::*;

use crate::response::{Response, ResponseView, STATUS_INTERNAL_SERVER_ERROR};

verus! {

pub const INTERNAL_SERVER_ERROR_BODY: &'static str = "Internal Server Error";

pub const CONTENT_LENGTH: &'static str = "Content-Length";

/// The length of [`INTERNAL_SERVER_ERROR_BODY`] in bytes, written in decimal.
pub const INTERNAL_SERVER_ERROR_LENGTH: &'static str = "21";

/// The generic answer to a request whose handler failed without a response.
pub open spec fn internal_server_error_view() -> ResponseView {
    ResponseView {
        status: STATUS_INTERNAL_SERVER_ERROR,
        headers: seq![(CONTENT_LENGTH@, INTERNAL_SERVER_ERROR_LENGTH@)],
        body: INTERNAL_SERVER_ERROR_BODY@,
    }
}

/// Replaces a failed handler's error by a fixed, well formed 500 response.
pub struct EnsureWellFormed500;

impl EnsureWellFormed500 {
    pub fn after<E>(&self, res: Result<Response, E>) -> (r: Response)
        ensures
            res matches Ok(resp) ==> r@ == resp@,
            res is Err ==> r@ == internal_server_error_view(),
    {
        match res {
            Ok(resp) => resp,
            Err(_) => {
                let mut headers: Vec<(String, String)> = Vec::new();
                headers.push(
                    (String::from_str(CONTENT_LENGTH), String::from_str(INTERNAL_SERVER_ERROR_LENGTH)),
                );
                let r = Response {
                    status: STATUS_INTERNAL_SERVER_ERROR,
                    headers,
                    body: String::from_str(INTERNAL_SERVER_ERROR_BODY),
                };
                assert(r@.headers =~= internal_server_error_view().headers);
                r
            },
        }
    }
}

} // verus!
