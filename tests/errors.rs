use std::sync::atomic::{AtomicUsize, Ordering};

use cargo_registry::errors::json::{
    BadRequest, CargoLegacy, Forbidden, InsecurelyGeneratedTokenRevoked, NotFound, ReadOnlyMode,
    ServerError, TooManyRequests, MAX_TIMESTAMP, MIN_TIMESTAMP,
};
use cargo_registry::errors::{
    convert_special_errors, BuiltResponse, ErrorBuilder, Failure, FailureKind, StorageError,
    UserFacing,
};
use cargo_registry::response::Response;

const READ_ONLY_BODY: &[u8] = br#"{"errors":[{"detail":"Crates.io is currently in read-only mode for maintenance. Please try again later."}]}"#;
const MUST_LOGIN: &[u8] = br#"{"errors":[{"detail":"must be logged in to perform that action"}]}"#;
const NOT_FOUND_BODY: &[u8] = br#"{"errors":[{"detail":"Not Found"}]}"#;

fn responded(built: BuiltResponse) -> (Response, Option<String>) {
    match built {
        BuiltResponse::Response { response, cause } => (response, cause),
        BuiltResponse::Error(e) => panic!("Unexpected unhandled error: {}", e.message()),
    }
}

fn unhandled(built: BuiltResponse) -> String {
    match built {
        BuiltResponse::Error(e) => e.message(),
        BuiltResponse::Response { .. } => panic!("Unexpected BuildResponse type"),
    }
}

fn forbidden() -> Response {
    Forbidden.response()
}

#[test]
fn chain_error_internal() {
    assert_eq!(
        ErrorBuilder::internal("inner")
            .chain_internal_err_cause("middle")
            .chain_internal_err_cause("outer")
            .cause_chain(),
        "outer caused by middle caused by inner"
    );
    assert_eq!(
        ErrorBuilder::internal("inner").chain_internal_err_cause("outer").cause_chain(),
        "outer caused by inner"
    );
    assert_eq!(
        ErrorBuilder::cargo_err_legacy("inner").chain_internal_err_cause("outer").cause_chain(),
        "outer"
    );
    assert_eq!(
        Forbidden.root_cause().chain_internal_err_cause("outer").cause_chain(),
        "outer caused by Forbidden"
    );
}

#[test]
fn chain_error_user_facing() {
    let response = ErrorBuilder::cargo_err_legacy("inner")
        .chain_user_facing_fallback(|| UserFacing::cargo_err_legacy("outer"))
        .build();

    match response {
        BuiltResponse::Response { response, cause: None } => {
            // The user sees the inner user-facing error response
            assert_eq!(response.body.as_bytes(), br#"{"errors":[{"detail":"inner"}]}"#)
        }
        _ => panic!("Unexpected BuildResponse type"),
    }

    let io_error = std::io::Error::from(std::io::ErrorKind::PermissionDenied);
    let response = convert_special_errors(Failure::Other { text: io_error.to_string() })
        .chain_user_facing_fallback(|| UserFacing::cargo_err_legacy("outer"))
        .build();

    match response {
        BuiltResponse::Response { response, cause: Some(cause) } if cause == "permission denied" => {
            // The inner error is available for logging.
            // The outer error is sent as a response to the client.
            assert_eq!(response.body.as_bytes(), br#"{"errors":[{"detail":"outer"}]}"#)
        }
        _ => panic!("Unexpected response type"),
    }
}

static SECOND_CALLS: AtomicUsize = AtomicUsize::new(0);

fn counted_second() -> Response {
    SECOND_CALLS.fetch_add(1, Ordering::SeqCst);
    UserFacing::bad_request("second")
}

#[test]
fn first_proposal_wins_and_second_is_not_called() {
    let built = ErrorBuilder::internal("root")
        .chain_user_facing_fallback(|| UserFacing::bad_request("first"))
        .chain_user_facing_fallback(counted_second)
        .build();
    let (response, cause) = responded(built);
    assert_eq!(response.status, 400);
    assert_eq!(response.body.as_bytes(), br#"{"errors":[{"detail":"first"}]}"#);
    assert_eq!(cause.as_deref(), Some("root"));
    assert_eq!(SECOND_CALLS.load(Ordering::SeqCst), 0);
}

#[test]
fn contexts_render_newest_first() {
    let built = ErrorBuilder::internal("inner")
        .chain_internal_err_cause("middle")
        .chain_internal_err_cause("outer")
        .build();
    assert_eq!(unhandled(built), "outer caused by middle caused by inner");
}

#[test]
fn read_only_storage_failure_commits_maintenance_response() {
    let message = "cannot execute INSERT in a read-only transaction".to_string();
    let fault = convert_special_errors(Failure::Storage(StorageError::Database {
        message: message.clone(),
    }));
    assert!(fault.root_cause_is(FailureKind::Storage));
    let (response, cause) = responded(fault.build());
    assert_eq!(response.status, 503);
    assert_eq!(response.body.as_bytes(), READ_ONLY_BODY);
    assert!(response.headers.is_empty());
    assert_eq!(cause, Some(message));
}

#[test]
fn other_database_message_is_not_read_only() {
    let fault = convert_special_errors(Failure::Storage(StorageError::Database {
        message: "read-only transaction was rolled back".to_string(),
    }));
    assert_eq!(unhandled(fault.build()), "read-only transaction was rolled back");
}

#[test]
fn short_database_message_is_not_read_only() {
    let fault = convert_special_errors(Failure::Storage(StorageError::Database {
        message: "transaction".to_string(),
    }));
    assert_eq!(unhandled(fault.build()), "transaction");
}

#[test]
fn record_absent_becomes_not_found() {
    let fault = convert_special_errors(Failure::Storage(StorageError::NotFound));
    let (response, cause) = responded(fault.build());
    assert_eq!(response.status, 404);
    assert_eq!(response.body.as_bytes(), NOT_FOUND_BODY);
    assert_eq!(cause, None);
}

#[test]
fn record_absent_with_context_becomes_not_found() {
    let fault = convert_special_errors(Failure::Storage(StorageError::NotFound))
        .chain_internal_err_cause("user_id from cookie or token not found in database");
    assert_eq!(
        fault.cause_chain(),
        "user_id from cookie or token not found in database caused by NotFound"
    );
    let (response, cause) = responded(fault.build());
    assert_eq!(response.status, 404);
    assert_eq!(cause, None);
}

#[test]
fn catalog_rendering_is_pure() {
    let a = BadRequest("bad".to_string());
    assert_eq!(a.response().body, a.response().body);
    let c = CargoLegacy("legacy".to_string());
    assert_eq!(c.response().body, c.response().body);
    let s = ServerError("server".to_string());
    assert_eq!(s.response().body, s.response().body);
    assert_eq!(NotFound.response().body, NotFound.response().body);
    assert_eq!(Forbidden.response().body, Forbidden.response().body);
    assert_eq!(ReadOnlyMode.response().body, ReadOnlyMode.response().body);
    assert_eq!(
        InsecurelyGeneratedTokenRevoked.response().body,
        InsecurelyGeneratedTokenRevoked.response().body
    );
    let t = TooManyRequests { retry_after: 1_600_000_000 };
    let (r1, r2) = (t.response(), t.response());
    assert_eq!(r1.body, r2.body);
    assert_eq!(r1.headers, r2.headers);
}

#[test]
fn catalog_statuses_and_bodies() {
    let r = BadRequest("bad".to_string()).response();
    assert_eq!((r.status, r.body.as_str()), (400, r#"{"errors":[{"detail":"bad"}]}"#));
    let r = ServerError("oops".to_string()).response();
    assert_eq!((r.status, r.body.as_str()), (500, r#"{"errors":[{"detail":"oops"}]}"#));
    let r = CargoLegacy("legacy".to_string()).response();
    assert_eq!((r.status, r.body.as_str()), (200, r#"{"errors":[{"detail":"legacy"}]}"#));
    let r = NotFound.response();
    assert_eq!((r.status, r.body.as_bytes()), (404, NOT_FOUND_BODY));
    let r = Forbidden.response();
    assert_eq!((r.status, r.body.as_bytes()), (403, MUST_LOGIN));
    let r = ReadOnlyMode.response();
    assert_eq!((r.status, r.body.as_bytes()), (503, READ_ONLY_BODY));
    let r = InsecurelyGeneratedTokenRevoked.response();
    assert_eq!(r.status, 401);
    assert!(r.body.starts_with(r#"{"errors":[{"detail":"The given API token does not match the format used by crates.io. Tokens generated before 2020-07-14"#));
    assert!(r.body.ends_with(r#"We apologize for any inconvenience."}]}"#));
}

#[test]
fn detail_text_is_escaped_as_json() {
    let r = UserFacing::bad_request("say \"hi\"\n");
    assert_eq!(r.body, r#"{"errors":[{"detail":"say \"hi\"\n"}]}"#);
}

#[test]
fn too_many_requests_header_and_detail_share_the_date() {
    let r = TooManyRequests { retry_after: 1_600_000_000 }.response();
    assert_eq!(r.status, 429);
    assert_eq!(
        r.headers,
        vec![("Retry-After".to_string(), "Sun, 13 Sep 2020 12:26:40 GMT".to_string())]
    );
    assert_eq!(
        r.body,
        r#"{"errors":[{"detail":"You have published too many crates in a short period of time. Please try again after Sun, 13 Sep 2020 12:26:40 GMT or email help@crates.io to have your limit increased."}]}"#
    );
}

#[test]
fn too_many_requests_at_the_ends_of_the_date_range() {
    let r = TooManyRequests { retry_after: MIN_TIMESTAMP }.response();
    assert_eq!(r.headers[0].1, "Thu, 01 Jan -262143 00:00:00 GMT");
    let r = TooManyRequests { retry_after: MAX_TIMESTAMP }.response();
    assert_eq!(r.headers[0].1, "Mon, 31 Dec +262142 23:59:59 GMT");
    let r = TooManyRequests { retry_after: 0 }.response();
    assert_eq!(r.headers[0].1, "Thu, 01 Jan 1970 00:00:00 GMT");
}

#[test]
fn too_many_requests_root_cause() {
    let fault = TooManyRequests { retry_after: 0 }.root_cause();
    assert!(fault.root_cause_is(FailureKind::TooManyRequests));
    assert_eq!(fault.cause_chain(), "TooManyRequests");
    let (response, _) = responded(fault.build());
    assert_eq!(response.status, 429);
}

#[test]
fn unrecognized_failure_with_context_is_unhandled() {
    let io_error = std::io::Error::new(std::io::ErrorKind::Other, "disk on fire");
    let fault = convert_special_errors(Failure::Other { text: io_error.to_string() })
        .chain_internal_err_cause("outer");
    assert!(fault.root_cause_is(FailureKind::Other));
    assert_eq!(unhandled(fault.build()), "outer caused by disk on fire");
}

#[test]
fn proposal_beats_not_found_convenience() {
    let fault = convert_special_errors(Failure::Storage(StorageError::NotFound))
        .chain_user_facing_fallback(forbidden);
    let (response, cause) = responded(fault.build());
    assert_eq!(response.status, 403);
    assert_eq!(response.body.as_bytes(), MUST_LOGIN);
    assert_eq!(cause.as_deref(), Some("NotFound"));
}

#[test]
fn forbidden_then_context_keeps_forbidden() {
    let fault = convert_special_errors(Failure::Other { text: "bad cookie".to_string() })
        .chain_user_facing_fallback(forbidden)
        .chain_internal_err_cause("outer");
    let (response, cause) = responded(fault.build());
    assert_eq!(response.status, 403);
    assert_eq!(response.body.as_bytes(), MUST_LOGIN);
    assert_eq!(cause.as_deref(), Some("outer caused by bad cookie"));
}

#[test]
fn root_cause_is_tests_the_first_entry_only() {
    let fault = ErrorBuilder::internal("inner");
    assert!(!fault.root_cause_is(FailureKind::Other));
    let fault = ErrorBuilder::bad_request("nope");
    assert!(!fault.root_cause_is(FailureKind::Storage));
    let fault = ReadOnlyMode.root_cause().chain_internal_err_cause("outer");
    assert!(fault.root_cause_is(FailureKind::ReadOnlyMode));
    assert!(!fault.root_cause_is(FailureKind::Forbidden));
    let fault = InsecurelyGeneratedTokenRevoked.root_cause();
    assert!(fault.root_cause_is(FailureKind::InsecurelyGeneratedTokenRevoked));
    assert_eq!(fault.cause_chain(), "insecurely generated, revoked 2020-07");
    let fault = NotFound.root_cause();
    assert!(fault.root_cause_is(FailureKind::NotFound));
}

#[test]
fn builders_commit_their_responses() {
    let r = ErrorBuilder::server_error("down").into_response().unwrap();
    assert_eq!((r.status, r.body.as_str()), (500, r#"{"errors":[{"detail":"down"}]}"#));
    let r = ErrorBuilder::custom_bad_request("bad".to_string()).into_response().unwrap();
    assert_eq!((r.status, r.body.as_str()), (400, r#"{"errors":[{"detail":"bad"}]}"#));
    let r = ErrorBuilder::custom_cargo_err_legacy("old".to_string()).into_response().unwrap();
    assert_eq!((r.status, r.body.as_str()), (200, r#"{"errors":[{"detail":"old"}]}"#));
    assert!(ErrorBuilder::internal("x").into_response().is_none());
    let (response, cause) = responded(ErrorBuilder::bad_request("b").build());
    assert_eq!(response.status, 400);
    assert_eq!(cause, None);
}
