//! The request gate and the error-to-status mapping.

use votechain_auth::errors::ApiErrorResponse;
use votechain_auth::gate::ensure_auth;
use votechain_auth::token::{Identity, JwtManager, ACCESS_TOKEN_EXP};

fn manager() -> JwtManager {
    JwtManager::new("access-secret".to_string(), "refresh-secret".to_string())
}

#[test]
fn public_paths_bypass_all_checks() {
    let m = manager();
    assert_eq!(ensure_auth(&m, "/auth/signin", None, 0), Ok(()));
    assert_eq!(ensure_auth(&m, "/health", Some("garbage"), 0), Ok(()));
}

#[test]
fn missing_or_empty_header_is_no_token() {
    let m = manager();
    assert_eq!(ensure_auth(&m, "/polls", None, 0), Err(ApiErrorResponse::NoToken));
    assert_eq!(ensure_auth(&m, "/polls", Some(""), 0), Err(ApiErrorResponse::NoToken));
}

#[test]
fn wrong_scheme_is_missing_bearer_token() {
    let m = manager();
    assert_eq!(
        ensure_auth(&m, "/polls", Some("Token abc"), 0),
        Err(ApiErrorResponse::MissingBearerToken)
    );
    assert_eq!(
        ensure_auth(&m, "/polls", Some("Bearer"), 0),
        Err(ApiErrorResponse::MissingBearerToken)
    );
}

#[test]
fn valid_access_token_passes() {
    let m = manager();
    let now: u64 = 1_700_000_000;
    let pair = m.generate_token_pair(Identity { address: "0xabc123".to_string() }, now);
    let header = format!("Bearer {}", pair.token);
    assert_eq!(ensure_auth(&m, "/polls", Some(&header), now), Ok(()));
}

#[test]
fn expired_access_token_is_expired_token() {
    let m = manager();
    let now: u64 = 1_700_000_000;
    let pair = m.generate_token_pair(Identity { address: "0xabc123".to_string() }, now);
    let header = format!("Bearer {}", pair.token);
    assert_eq!(
        ensure_auth(&m, "/polls", Some(&header), now + ACCESS_TOKEN_EXP),
        Err(ApiErrorResponse::ExpiredToken)
    );
}

#[test]
fn refresh_token_does_not_pass_the_gate() {
    let m = manager();
    let now: u64 = 1_700_000_000;
    let pair = m.generate_token_pair(Identity { address: "0xabc123".to_string() }, now);
    let header = format!("Bearer {}", pair.refresh_token);
    assert_eq!(ensure_auth(&m, "/polls", Some(&header), now), Err(ApiErrorResponse::InvalidToken));
}

#[test]
fn garbage_token_is_invalid_token() {
    let m = manager();
    assert_eq!(
        ensure_auth(&m, "/polls", Some("Bearer garbage"), 0),
        Err(ApiErrorResponse::InvalidToken)
    );
}

#[test]
fn error_kinds_map_to_fixed_status_codes() {
    assert_eq!(ApiErrorResponse::NoToken.status_code(), 401);
    assert_eq!(ApiErrorResponse::InvalidToken.status_code(), 403);
    assert_eq!(ApiErrorResponse::ExpiredToken.status_code(), 498);
    assert_eq!(ApiErrorResponse::InvalidSignature.status_code(), 495);
    assert_eq!(ApiErrorResponse::MissingBearerToken.status_code(), 499);
    assert_eq!(ApiErrorResponse::TokenMismatch.status_code(), 496);
    assert_eq!(ApiErrorResponse::InternalServerError.status_code(), 500);
    assert_eq!(ApiErrorResponse::NotFound.status_code(), 404);
}

#[test]
fn error_kinds_have_messages() {
    assert_eq!(ApiErrorResponse::NoToken.message(), "missing token");
    assert_eq!(ApiErrorResponse::InvalidToken.message(), "invalid token");
    assert_eq!(ApiErrorResponse::ExpiredToken.message(), "expired token");
    assert_eq!(ApiErrorResponse::InvalidSignature.message(), "invalid signature");
    assert_eq!(ApiErrorResponse::MissingBearerToken.message(), "missing bearer token");
    assert_eq!(ApiErrorResponse::TokenMismatch.message(), "token mismatch");
    assert_eq!(ApiErrorResponse::InternalServerError.message(), "internal server error");
    assert_eq!(ApiErrorResponse::NotFound.message(), "resource not found");
}
