//! The decisions taken around calls to GitHub's API; the calls themselves are made by
//! the caller.
use vstd::prelude::*;
use vstd::string::*;

use crate::errors::json::NotFound;
use crate::response::Response;
use crate::errors::{classify, convert_special_errors, ErrorBuilder, Failure, FaultView};

verus! {

pub const GITHUB_URL: &'static str = "https://github.com/";

pub const GITHUB_API_HOST: &'static str = "://api.github.com";

pub const STATUS_UNAUTHORIZED: u16 = 401;

pub const STATUS_FORBIDDEN: u16 = 403;

pub const STATUS_NOT_FOUND: u16 = 404;

pub const NO_PERMISSION_PREFIX: &'static str =
    "It looks like you don't have permission to query a necessary property from Github to complete this request. You may need to re-authenticate on crates.io to grant permission to read github org memberships. Just go to https://";

pub const NO_PERMISSION_SUFFIX: &'static str = "/login";

pub const NOT_200_PREFIX: &'static str = "didn't get a 200 result from github: ";

/// `org` is the part of `login` between its first colon and the next colon (or the end).
pub open spec fn is_org_segment(login: Seq<char>, org: Seq<char>) -> bool {
    exists|i: int, j: int|
        0 <= i < j <= login.len() && login[i] == ':' && (forall|k: int|
            0 <= k < i ==> login[k] != ':') && (j == login.len() || login[j] == ':') && (forall|
            k: int,
        | i < k < j ==> login[k] != ':') && org == login.subrange(i + 1, j)
}

/// The web address of a GitHub team whose login is written `github:<org>:<team>`.
pub fn team_url(login: &str) -> (r: String)
    requires
        exists|k: int| 0 <= k < login@.len() && login@[k] == ':',
    ensures
        r@.len() >= GITHUB_URL@.len(),
        r@.subrange(0, GITHUB_URL@.len() as int) == GITHUB_URL@,
        is_org_segment(login@, r@.subrange(GITHUB_URL@.len() as int, r@.len() as int)),
{
    let n = login.unicode_len();
    let mut i: usize = 0;
    while i < n && login.get_char(i) != ':'
        invariant
            n == login@.len(),
            i <= n,
            forall|k: int| 0 <= k < i ==> login@[k] != ':',
        decreases n - i,
    {
        i = i + 1;
    }
    let mut j: usize = i + 1;
    while j < n && login.get_char(j) != ':'
        invariant
            n == login@.len(),
            i < n,
            login@[i as int] == ':',
            i < j <= n,
            forall|k: int| i < k < j ==> login@[k] != ':',
        decreases n - j,
    {
        j = j + 1;
    }
    let org = login.substring_char(i + 1, j);
    let mut r = String::from_str(GITHUB_URL);
    r.append(org);
    let ghost p = GITHUB_URL@.len() as int;
    assert(r@.subrange(0, p) =~= GITHUB_URL@);
    assert(r@.subrange(p, r@.len() as int) =~= login@.subrange(i + 1, j as int));
    assert(j == n || login@[j as int] == ':');
    assert(is_org_segment(login@, login@.subrange(i + 1, j as int))) by {
        let ii = i as int;
        let jj = j as int;
        assert(0 <= ii < jj <= login@.len() && login@[ii] == ':');
    }
    r
}

/// The address of an API request: `<protocol>://api.github.com<path>`.
pub fn github_url(protocol: &str, path: &str) -> (r: String)
    ensures
        r@ == protocol@ + GITHUB_API_HOST@ + path@,
{
    let mut r = String::from_str(protocol);
    r.append(GITHUB_API_HOST);
    r.append(path);
    r
}

/// The message shown when GitHub refused to tell whether a user belongs to an org.
pub open spec fn no_permission_message(domain_name: Seq<char>) -> Seq<char> {
    NO_PERMISSION_PREFIX@ + domain_name + NO_PERMISSION_SUFFIX@
}

/// What an unsuccessful answer from GitHub becomes. `status` is the answer's status, if
/// one came; `error_text` describes the failed request.
pub open spec fn github_error_view(
    domain_name: Seq<char>,
    status: Option<u16>,
    error_text: Seq<char>,
) -> FaultView {
    if status == Some(STATUS_UNAUTHORIZED) || status == Some(STATUS_FORBIDDEN) {
        FaultView {
            chain: Seq::empty(),
            response: Some(
                crate::response::json_error_view(
                    no_permission_message(domain_name),
                    crate::response::STATUS_OK,
                ),
            ),
        }
    } else if status == Some(STATUS_NOT_FOUND) {
        classify(Failure::GhNotFound).with_fallback(NotFound::response_view())
    } else {
        FaultView {
            chain: seq![crate::errors::CauseView::Internal(NOT_200_PREFIX@ + error_text)],
            response: None,
        }
    }
}

fn not_found_response() -> (r: Response)
    ensures
        r@ == NotFound::response_view(),
{
    NotFound.response()
}

/// Turns an unsuccessful answer from GitHub into a builder: a refusal asks the user to log
/// in again, "not found" becomes the not-found response, and anything else is internal.
pub fn handle_error_response(domain_name: &str, status: Option<u16>, error_text: &str) -> (r:
    ErrorBuilder)
    ensures
        r@ == github_error_view(domain_name@, status, error_text@),
{
    if status == Some(STATUS_UNAUTHORIZED) || status == Some(STATUS_FORBIDDEN) {
        let mut message = String::from_str(NO_PERMISSION_PREFIX);
        message.append(domain_name);
        message.append(NO_PERMISSION_SUFFIX);
        ErrorBuilder::custom_cargo_err_legacy(message)
    } else if status == Some(STATUS_NOT_FOUND) {
        convert_special_errors(Failure::GhNotFound).chain_user_facing_fallback(not_found_response)
    } else {
        let mut info = String::from_str(NOT_200_PREFIX);
        info.append(error_text);
        ErrorBuilder::internal(info.as_str())
    }
}

} // verus!
