//! The catalog of user-facing error responses.
use vstd::prelude::*;
use vstd::string::*;

use crate::response::{
    json_error, json_error_view, error_body, Response, ResponseView, STATUS_BAD_REQUEST,
    STATUS_FORBIDDEN, STATUS_INTERNAL_SERVER_ERROR, STATUS_NOT_FOUND, STATUS_OK,
    STATUS_SERVICE_UNAVAILABLE, STATUS_TOO_MANY_REQUESTS, STATUS_UNAUTHORIZED,
};

verus! {

pub const NOT_FOUND_DETAIL: &'static str = "Not Found";

pub const FORBIDDEN_DETAIL: &'static str = "must be logged in to perform that action";

pub const READ_ONLY_DETAIL: &'static str =
    "Crates.io is currently in read-only mode for maintenance. Please try again later.";

pub const TOKEN_REVOKED_DETAIL: &'static str =
    "The given API token does not match the format used by crates.io. Tokens generated before 2020-07-14 were generated with an insecure random number generator, and have been revoked. You can generate a new token at https://crates.io/me. For more information please see https://blog.rust-lang.org/2020/07/14/crates-io-security-advisory.html. We apologize for any inconvenience.";

pub const TOO_MANY_REQUESTS_PREFIX: &'static str =
    "You have published too many crates in a short period of time. Please try again after ";

pub const TOO_MANY_REQUESTS_SUFFIX: &'static str = " or email help@crates.io to have your limit increased.";

pub const RETRY_AFTER: &'static str = "Retry-After";

/// The earliest second since the Unix epoch that chrono can represent (January 1 of the
/// year -262143).
pub const MIN_TIMESTAMP: i64 = -8334601228800;

/// The last second since the Unix epoch that chrono can represent (December 31 of the
/// year 262142, 23:59:59).
pub const MAX_TIMESTAMP: i64 = 8210266876799;

/// The date `secs` seconds after the Unix epoch (UTC), written by chrono as
/// `%a, %d %b %Y %H:%M:%S GMT`.
pub uninterp spec fn http_date_of(secs: i64) -> Seq<char>;

/// Relies on `chrono::DateTime::from_timestamp` (which returns `None` exactly when the
/// day falls outside chrono's date range) and on `format` with an HTTP date pattern, whose
/// text depends on the timestamp alone.
#[verifier::external_body]
fn http_date(secs: i64) -> (r: Option<String>)
    ensures
        r is Some <==> MIN_TIMESTAMP <= secs <= MAX_TIMESTAMP,
        r matches Some(d) ==> d@ == http_date_of(secs),
{
    match chrono::DateTime::from_timestamp(secs, 0) {
        Some(t) => Some(t.format("%a, %d %b %Y %H:%M:%S GMT").to_string()),
        None => None,
    }
}

/// The record that a request asked for does not exist.
pub struct NotFound;

impl NotFound {
    pub open spec fn response_view() -> ResponseView {
        json_error_view(NOT_FOUND_DETAIL@, STATUS_NOT_FOUND)
    }

    pub fn response(&self) -> (r: Response)
        ensures
            r@ == Self::response_view(),
    {
        json_error(NOT_FOUND_DETAIL, STATUS_NOT_FOUND)
    }
}

/// The request needs a logged-in user.
pub struct Forbidden;

impl Forbidden {
    pub open spec fn response_view() -> ResponseView {
        json_error_view(FORBIDDEN_DETAIL@, STATUS_FORBIDDEN)
    }

    pub fn response(&self) -> (r: Response)
        ensures
            r@ == Self::response_view(),
    {
        json_error(FORBIDDEN_DETAIL, STATUS_FORBIDDEN)
    }
}

/// A write was attempted while the database only accepts reads.
pub struct ReadOnlyMode;

impl ReadOnlyMode {
    pub open spec fn response_view() -> ResponseView {
        json_error_view(READ_ONLY_DETAIL@, STATUS_SERVICE_UNAVAILABLE)
    }

    pub fn response(&self) -> (r: Response)
        ensures
            r@ == Self::response_view(),
    {
        json_error(READ_ONLY_DETAIL, STATUS_SERVICE_UNAVAILABLE)
    }
}

/// The API token was made by the old, insecure generator and has been revoked.
pub struct InsecurelyGeneratedTokenRevoked;

impl InsecurelyGeneratedTokenRevoked {
    pub open spec fn response_view() -> ResponseView {
        json_error_view(TOKEN_REVOKED_DETAIL@, STATUS_UNAUTHORIZED)
    }

    pub fn response(&self) -> (r: Response)
        ensures
            r@ == Self::response_view(),
    {
        json_error(TOKEN_REVOKED_DETAIL, STATUS_UNAUTHORIZED)
    }
}

/// An error for older cargo clients, which read a failure from a 200 response's body.
pub struct CargoLegacy(pub String);

impl CargoLegacy {
    pub open spec fn response_view(&self) -> ResponseView {
        json_error_view(self.0@, STATUS_OK)
    }

    pub fn response(&self) -> (r: Response)
        ensures
            r@ == self.response_view(),
    {
        json_error(self.0.as_str(), STATUS_OK)
    }
}

/// A request that the server will not act on, with the reason for the user.
pub struct BadRequest(pub String);

impl BadRequest {
    pub open spec fn response_view(&self) -> ResponseView {
        json_error_view(self.0@, STATUS_BAD_REQUEST)
    }

    pub fn response(&self) -> (r: Response)
        ensures
            r@ == self.response_view(),
    {
        json_error(self.0.as_str(), STATUS_BAD_REQUEST)
    }
}

/// A failure on the server's side, with a message that is safe to show the user.
pub struct ServerError(pub String);

impl ServerError {
    pub open spec fn response_view(&self) -> ResponseView {
        json_error_view(self.0@, STATUS_INTERNAL_SERVER_ERROR)
    }

    pub fn response(&self) -> (r: Response)
        ensures
            r@ == self.response_view(),
    {
        json_error(self.0.as_str(), STATUS_INTERNAL_SERVER_ERROR)
    }
}

/// The user published too often; `retry_after` is the second since the Unix epoch (UTC)
/// from which a new attempt is accepted.
pub struct TooManyRequests {
    pub retry_after: i64,
}

/// The detail text of a rate-limit response that names `date`.
pub open spec fn too_many_requests_detail(date: Seq<char>) -> Seq<char> {
    TOO_MANY_REQUESTS_PREFIX@ + date + TOO_MANY_REQUESTS_SUFFIX@
}

impl TooManyRequests {
    /// The timestamp lies in the range of dates that can be written.
    pub open spec fn wf(&self) -> bool {
        MIN_TIMESTAMP <= self.retry_after <= MAX_TIMESTAMP
    }

    pub open spec fn response_view(&self) -> ResponseView {
        let date = http_date_of(self.retry_after);
        ResponseView {
            status: STATUS_TOO_MANY_REQUESTS,
            headers: seq![(RETRY_AFTER@, date)],
            body: error_body(too_many_requests_detail(date)),
        }
    }

    pub fn response(&self) -> (r: Response)
        requires
            self.wf(),
        ensures
            r@ == self.response_view(),
    {
        let date = match http_date(self.retry_after) {
            Some(d) => d,
            None => String::new(),
        };
        let mut detail = String::from_str(TOO_MANY_REQUESTS_PREFIX);
        detail.append(date.as_str());
        detail.append(TOO_MANY_REQUESTS_SUFFIX);
        let mut r = json_error(detail.as_str(), STATUS_TOO_MANY_REQUESTS);
        r.headers.push((String::from_str(RETRY_AFTER), date));
        assert(r@.headers =~= self.response_view().headers);
        r
    }
}

} // verus!
