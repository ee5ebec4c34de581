//! Token issuing and decoding against a fixed clock.

use votechain_auth::token::{
    Claims, DecodeError, JwtManager, TokenKind, ACCESS_TOKEN_EXP, REFRESH_TOKEN_EXP,
};

fn manager() -> JwtManager {
    JwtManager::new("access-secret".to_string(), "refresh-secret".to_string())
}

#[test]
fn access_token_subject_right_after_issuance() {
    let m = manager();
    let now: u64 = 1_700_000_000;
    let pair = m.generate_token_pair(
        votechain_auth::token::Identity { address: "0xabc123".to_string() },
        now,
    );
    let claims = m
        .decode_token(&pair.token, TokenKind::Access, now)
        .expect("fresh access token must decode");
    assert_eq!(claims.sub, "0xabc123");
    assert_eq!(claims.aud, "VoteChain");
    assert_eq!(claims.exp, now + ACCESS_TOKEN_EXP);
}

#[test]
fn refresh_token_subject_right_after_issuance() {
    let m = manager();
    let now: u64 = 1_700_000_000;
    let pair = m.generate_token_pair(
        votechain_auth::token::Identity { address: "0xabc123".to_string() },
        now,
    );
    let claims = m
        .decode_token(&pair.refresh_token, TokenKind::Refresh, now)
        .expect("fresh refresh token must decode");
    assert_eq!(claims.sub, "0xabc123");
    assert_eq!(claims.exp, now + REFRESH_TOKEN_EXP);
}

#[test]
fn access_token_expires_after_fifteen_minutes() {
    let m = manager();
    let now: u64 = 1_700_000_000;
    let pair = m.generate_token_pair(
        votechain_auth::token::Identity { address: "0xabc123".to_string() },
        now,
    );
    // Still valid one second before expiry.
    assert!(m.decode_token(&pair.token, TokenKind::Access, now + ACCESS_TOKEN_EXP - 1).is_ok());
    // Expired the moment the expiry is reached, with the claims readable.
    match m.decode_token(&pair.token, TokenKind::Access, now + ACCESS_TOKEN_EXP) {
        Err(DecodeError::Expired(c)) => {
            assert_eq!(c.sub, "0xabc123");
            assert_eq!(c.exp, now + ACCESS_TOKEN_EXP);
        }
        other => panic!("expected expiry, got {:?}", other),
    }
}

#[test]
fn refresh_token_expires_after_thirty_days() {
    let m = manager();
    let now: u64 = 1_700_000_000;
    let pair = m.generate_token_pair(
        votechain_auth::token::Identity { address: "0xabc123".to_string() },
        now,
    );
    assert!(m
        .decode_token(&pair.refresh_token, TokenKind::Refresh, now + REFRESH_TOKEN_EXP - 1)
        .is_ok());
    assert!(matches!(
        m.decode_token(&pair.refresh_token, TokenKind::Refresh, now + REFRESH_TOKEN_EXP),
        Err(DecodeError::Expired(_))
    ));
}

#[test]
fn token_of_wrong_kind_is_invalid() {
    let m = manager();
    let now: u64 = 1_700_000_000;
    let pair = m.generate_token_pair(
        votechain_auth::token::Identity { address: "0xabc123".to_string() },
        now,
    );
    // An access token presented as a refresh token is signed with the
    // wrong secret, and vice versa.
    assert!(matches!(
        m.decode_token(&pair.token, TokenKind::Refresh, now),
        Err(DecodeError::Invalid)
    ));
    assert!(matches!(
        m.decode_token(&pair.refresh_token, TokenKind::Access, now),
        Err(DecodeError::Invalid)
    ));
}

#[test]
fn tampered_token_is_invalid() {
    let m = manager();
    let now: u64 = 1_700_000_000;
    let pair = m.generate_token_pair(
        votechain_auth::token::Identity { address: "0xabc123".to_string() },
        now,
    );
    let mut tampered = pair.token.clone();
    // Flip the final character of the signature segment.
    let last = tampered.pop().unwrap();
    tampered.push(if last == 'A' { 'B' } else { 'A' });
    assert!(matches!(
        m.decode_token(&tampered, TokenKind::Access, now),
        Err(DecodeError::Invalid)
    ));
}

#[test]
fn garbage_token_is_invalid() {
    let m = manager();
    let now: u64 = 1_700_000_000;
    assert!(matches!(
        m.decode_token("not-a-token", TokenKind::Access, now),
        Err(DecodeError::Invalid)
    ));
    assert!(matches!(m.decode_token("", TokenKind::Refresh, now), Err(DecodeError::Invalid)));
}

#[test]
fn wrong_audience_is_invalid() {
    let m = manager();
    let now: u64 = 1_700_000_000;
    let foreign = m.generate_token(
        Claims { sub: "0xabc123".to_string(), aud: "SomeoneElse".to_string(), exp: now + 900 },
        "access-secret",
    );
    assert!(matches!(
        m.decode_token(&foreign, TokenKind::Access, now),
        Err(DecodeError::Invalid)
    ));
}

#[test]
fn new_access_token_from_refresh_carries_subject() {
    let m = manager();
    let now: u64 = 1_700_000_000;
    let pair = m.generate_token_pair(
        votechain_auth::token::Identity { address: "0xabc123".to_string() },
        now,
    );
    let later = now + 100;
    let fresh = m
        .new_access_token_from_refresh(&pair.refresh_token, later)
        .expect("valid refresh token must earn an access token");
    let claims = m.decode_token(&fresh, TokenKind::Access, later).unwrap();
    assert_eq!(claims.sub, "0xabc123");
    assert_eq!(claims.exp, later + ACCESS_TOKEN_EXP);
}

#[test]
fn new_access_token_from_expired_refresh_is_refused() {
    let m = manager();
    let now: u64 = 1_700_000_000;
    let pair = m.generate_token_pair(
        votechain_auth::token::Identity { address: "0xabc123".to_string() },
        now,
    );
    assert!(m
        .new_access_token_from_refresh(&pair.refresh_token, now + REFRESH_TOKEN_EXP)
        .is_none());
    assert!(m.new_access_token_from_refresh("garbage", now).is_none());
}

#[test]
fn reissued_access_token_has_later_expiry() {
    let m = manager();
    let now: u64 = 1_700_000_000;
    let pair = m.generate_token_pair(
        votechain_auth::token::Identity { address: "0xabc123".to_string() },
        now,
    );
    let first = m.decode_token(&pair.token, TokenKind::Access, now).unwrap();
    let claims = m.decode_token(&pair.refresh_token, TokenKind::Refresh, now + 1).unwrap();
    let reissued = m.reissue_access(&claims, now + 1);
    let second = m.decode_token(&reissued, TokenKind::Access, now + 1).unwrap();
    assert_eq!(second.sub, first.sub);
    assert!(second.exp > first.exp);
}
