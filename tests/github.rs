use cargo_registry::errors::{BuiltResponse, FailureKind};
use cargo_registry::github::{github_url, handle_error_response, team_url};
use cargo_registry::middleware::EnsureWellFormed500;
use cargo_registry::response::Response;

#[test]
fn team_url_takes_the_org() {
    assert_eq!(team_url("github:rust-lang:core"), "https://github.com/rust-lang");
    assert_eq!(team_url("github:rust-lang"), "https://github.com/rust-lang");
    assert_eq!(team_url("github::core"), "https://github.com/");
}

#[test]
fn github_url_joins_protocol_and_path() {
    assert_eq!(github_url("https", "/user/teams"), "https://api.github.com/user/teams");
}

#[test]
fn github_refusal_asks_to_log_in_again() {
    for status in [401u16, 403] {
        let fault = handle_error_response("crates.io", Some(status), "refused");
        let r = fault.into_response().unwrap();
        assert_eq!(r.status, 200);
        assert!(r.body.ends_with(r#"Just go to https://crates.io/login"}]}"#));
    }
}

#[test]
fn github_not_found_is_not_found() {
    let fault = handle_error_response("crates.io", Some(404), "missing");
    assert!(fault.root_cause_is(FailureKind::GhNotFound));
    match fault.build() {
        BuiltResponse::Response { response, cause } => {
            assert_eq!(response.status, 404);
            assert_eq!(cause.as_deref(), Some("not found returned by GitHub API"));
        }
        BuiltResponse::Error(_) => panic!("Unexpected response type"),
    }
}

#[test]
fn github_other_failure_is_internal() {
    let fault = handle_error_response("crates.io", Some(502), "bad gateway");
    match fault.build() {
        BuiltResponse::Error(e) => {
            assert_eq!(e.message(), "didn't get a 200 result from github: bad gateway")
        }
        BuiltResponse::Response { .. } => panic!("Unexpected response type"),
    }
    assert!(handle_error_response("crates.io", None, "timeout").into_response().is_none());
}

#[test]
fn failed_handler_gets_a_well_formed_500() {
    let r = EnsureWellFormed500.after::<String>(Err("boom".to_string()));
    assert_eq!(r.status, 500);
    assert_eq!(r.body, "Internal Server Error");
    assert_eq!(r.headers, vec![("Content-Length".to_string(), r.body.len().to_string())]);
    let ok = Response { status: 200, headers: vec![], body: "fine".to_string() };
    let r = EnsureWellFormed500.after::<String>(Ok(ok));
    assert_eq!((r.status, r.body.as_str()), (200, "fine"));
}
