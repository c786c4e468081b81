//! The plain HTTP response values that the error catalog renders.
use vstd::prelude::*;
use vstd::string::*;

verus! {

pub const STATUS_OK: u16 = 200;

pub const STATUS_BAD_REQUEST: u16 = 400;

pub const STATUS_UNAUTHORIZED: u16 = 401;

pub const STATUS_FORBIDDEN: u16 = 403;

pub const STATUS_NOT_FOUND: u16 = 404;

pub const STATUS_TOO_MANY_REQUESTS: u16 = 429;

pub const STATUS_INTERNAL_SERVER_ERROR: u16 = 500;

pub const STATUS_SERVICE_UNAVAILABLE: u16 = 503;

/// The JSON string literal (quoted and escaped) that serde_json writes for the text `s`.
pub uninterp spec fn json_string_of(s: Seq<char>) -> Seq<char>;

/// Relies on `serde_json::to_string` applied to a `str`: the result is the JSON string
/// literal for `s`, a function of its characters alone. For a `str` the serializer only
/// writes into an in-memory buffer, so the `Err` arm is never taken.
#[verifier::external_body]
fn json_string(s: &str) -> (r: String)
    ensures
        r@ == json_string_of(s@),
{
    match serde_json::to_string(s) {
        Ok(j) => j,
        Err(_) => String::new(),
    }
}

/// The body `{"errors":[{"detail":<detail>}]}` of every catalog response.
pub open spec fn error_body(detail: Seq<char>) -> Seq<char> {
    "{\"errors\":[{\"detail\":"@ + json_string_of(detail) + "}]}"@
}

/// A response ready to be written to a client.
pub struct Response {
    pub status: u16,
    /// Header names and values, in the order they are sent.
    pub headers: Vec<(String, String)>,
    pub body: String,
}

/// What a [`Response`] holds, as mathematical values.
pub ghost struct ResponseView {
    pub status: u16,
    pub headers: Seq<(Seq<char>, Seq<char>)>,
    pub body: Seq<char>,
}

pub open spec fn header_view(h: (String, String)) -> (Seq<char>, Seq<char>) {
    (h.0@, h.1@)
}

impl View for Response {
    type V = ResponseView;

    open spec fn view(&self) -> ResponseView {
        ResponseView {
            status: self.status,
            headers: self.headers@.map_values(|h: (String, String)| header_view(h)),
            body: self.body@,
        }
    }
}

/// The response with the given status, no extra header, and `detail` as its error text.
pub open spec fn json_error_view(detail: Seq<char>, status: u16) -> ResponseView {
    ResponseView { status, headers: Seq::empty(), body: error_body(detail) }
}

/// Generates a response with the provided status and description as JSON.
pub fn json_error(detail: &str, status: u16) -> (r: Response)
    ensures
        r@ == json_error_view(detail@, status),
{
    let mut body = String::from_str("{\"errors\":[{\"detail\":");
    let escaped = json_string(detail);
    body.append(escaped.as_str());
    body.append("}]}");
    let r = Response { status, headers: Vec::new(), body };
    assert(r@.headers =~= Seq::empty());
    r
}

} // verus!
