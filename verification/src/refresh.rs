//! The refresh flow: a strictly sequential state machine. The presented
//! refresh token is decoded first — an expired token still yields readable
//! claims, so the right session can be located and revoked, while a token
//! with a bad signature or structure is never trusted enough to extract a
//! subject from. The session record is then looked up, the presented token
//! compared with the stored one, and only then is the outcome resolved:
//! revocation on expiry, or a fresh access token (with an optionally
//! rotated refresh token) on success.

use vstd::prelude::*;
use crate::errors::ApiErrorResponse;
use crate::session::{SessionRecordView, SessionStore};
use crate::strings::{lower_seq, str_eq, to_lowercase};
use crate::token::{
    spec_audience, spec_decode, token_of, DecodeError, DecodeOutcome, JwtManager, JwtManagerView,
    TokenKind,
};

verus! {

/// What a successful refresh grants: a fresh access token and, when
/// rotation is switched on, the rotated refresh token the client must
/// present from now on.
#[derive(Debug)]
pub struct RefreshGrant {
    /// The fresh access token.
    pub token: String,
    /// The rotated refresh token; `None` when rotation is off and the
    /// presented refresh token stays valid.
    pub new_refresh_token: Option<String>,
}

/// The mathematical content of a `RefreshGrant`.
pub struct RefreshGrantView {
    pub token: Seq<char>,
    pub new_refresh_token: Option<Seq<char>>,
}

impl View for RefreshGrant {
    type V = RefreshGrantView;

    open spec fn view(&self) -> RefreshGrantView {
        RefreshGrantView {
            token: self.token@,
            new_refresh_token: match self.new_refresh_token {
                Option::Some(ref t) => Option::Some(t@),
                Option::None => Option::None,
            },
        }
    }
}

/// The outcome of a refresh request against a store: the result handed to
/// the client, and the store contents after the call.
///
/// Decode, lookup and compare run in order, each failure terminal; then:
/// an expired-but-matching token clears the stored refresh token
/// (revoking the session without losing the identity row) and reports
/// `ExpiredToken`; a valid matching token earns a fresh access token, and
/// with `rotate` on, a rotated refresh token that replaces the stored one.
/// Without rotation a successful refresh leaves the store untouched.
pub open spec fn spec_refresh(
    m: JwtManagerView,
    s: Map<Seq<char>, SessionRecordView>,
    token: Seq<char>,
    rotate: bool,
    now: u64,
) -> (Result<RefreshGrantView, ApiErrorResponse>, Map<Seq<char>, SessionRecordView>) {
    match spec_decode(m.refresh_secret, token, now) {
        DecodeOutcome::Invalid => (Err(ApiErrorResponse::InvalidToken), s),
        DecodeOutcome::Expired(c) => {
            let key = lower_seq(c.sub);
            if !s.contains_key(key) {
                (Err(ApiErrorResponse::InvalidToken), s)
            } else if s[key].current_refresh_token != Some(token) {
                (Err(ApiErrorResponse::TokenMismatch), s)
            } else {
                (
                    Err(ApiErrorResponse::ExpiredToken),
                    s.insert(
                        key,
                        SessionRecordView {
                            address: key,
                            current_refresh_token: None,
                            last_login_at: s[key].last_login_at,
                            created_at: s[key].created_at,
                        },
                    ),
                )
            }
        },
        DecodeOutcome::Valid(c) => {
            let key = lower_seq(c.sub);
            if !s.contains_key(key) {
                (Err(ApiErrorResponse::InvalidToken), s)
            } else if s[key].current_refresh_token != Some(token) {
                (Err(ApiErrorResponse::TokenMismatch), s)
            } else {
                let access = token_of(
                    m.access_secret,
                    c.sub,
                    spec_audience(),
                    (now + m.access_token_exp) as u64,
                );
                if rotate {
                    let rotated = token_of(
                        m.refresh_secret,
                        c.sub,
                        spec_audience(),
                        (now + m.refresh_token_exp) as u64,
                    );
                    (
                        Ok(
                            RefreshGrantView {
                                token: access,
                                new_refresh_token: Some(rotated),
                            },
                        ),
                        s.insert(
                            key,
                            SessionRecordView {
                                address: key,
                                current_refresh_token: Some(rotated),
                                last_login_at: now,
                                created_at: s[key].created_at,
                            },
                        ),
                    )
                } else {
                    (Ok(RefreshGrantView { token: access, new_refresh_token: None }), s)
                }
            }
        },
    }
}

/// Runs one refresh request against the store at time `now`. Exactly the
/// image of `spec_refresh`: the result matches its first component and
/// the store afterwards its second. `rotate` is the service-level policy
/// toggle: rotating on every refresh shortens the replay window of a
/// stolen refresh token at the cost of invalidating concurrent refresh
/// calls.
pub fn refresh(
    manager: &JwtManager,
    store: &mut SessionStore,
    refresh_token: &str,
    rotate: bool,
    now: u64,
) -> (r: Result<RefreshGrant, ApiErrorResponse>)
    requires
        old(store).wf(),
        now + manager@.access_token_exp <= u64::MAX,
        now + manager@.refresh_token_exp <= u64::MAX,
    ensures
        final(store).wf(),
        ({
            let outcome = spec_refresh(manager@, old(store)@, refresh_token@, rotate, now);
            &&& final(store)@ == outcome.1
            &&& match r {
                Ok(g) => outcome.0 == Ok::<RefreshGrantView, ApiErrorResponse>(g@),
                Err(e) => outcome.0 == Err::<RefreshGrantView, ApiErrorResponse>(e),
            }
        }),
{
    let decoded = manager.decode_token(refresh_token, TokenKind::Refresh, now);
    let (claims, expired) = match decoded {
        Ok(c) => (c, false),
        Err(DecodeError::Expired(c)) => (c, true),
        Err(DecodeError::Invalid) => {
            return Err(ApiErrorResponse::InvalidToken);
        },
    };
    let key = to_lowercase(claims.sub.as_str());
    let record = match store.get_by_address(key.as_str()) {
        Some(rec) => rec,
        None => {
            return Err(ApiErrorResponse::InvalidToken);
        },
    };
    let current_matches = match &record.current_refresh_token {
        Some(t) => str_eq(t.as_str(), refresh_token),
        None => false,
    };
    if !current_matches {
        return Err(ApiErrorResponse::TokenMismatch);
    }
    if expired {
        store.update_if_current(key.as_str(), refresh_token, None, record.last_login_at);
        return Err(ApiErrorResponse::ExpiredToken);
    }
    let access = manager.reissue_access(&claims, now);
    if rotate {
        let rotated = manager.rotate_refresh(&claims, now);
        store.update_if_current(key.as_str(), refresh_token, Some(rotated.clone()), now);
        Ok(RefreshGrant { token: access, new_refresh_token: Some(rotated) })
    } else {
        Ok(RefreshGrant { token: access, new_refresh_token: None })
    }
}

/// Law: a refresh whose token decodes validly but does not match the
/// stored refresh token — it was rotated or revoked elsewhere — fails
/// with `TokenMismatch` and leaves the store unchanged.
pub proof fn lemma_refresh_mismatch_unchanged(
    m: JwtManagerView,
    s: Map<Seq<char>, SessionRecordView>,
    token: Seq<char>,
    rotate: bool,
    now: u64,
)
    ensures
        match spec_decode(m.refresh_secret, token, now) {
            DecodeOutcome::Valid(c) => (s.contains_key(lower_seq(c.sub)) && s[lower_seq(
                c.sub,
            )].current_refresh_token != Some(token)) ==> ({
                let outcome = spec_refresh(m, s, token, rotate, now);
                outcome.0 == Err::<RefreshGrantView, ApiErrorResponse>(
                    ApiErrorResponse::TokenMismatch,
                ) && outcome.1 == s
            }),
            _ => true,
        },
{
}

/// Law: a refresh that finds its matching token expired returns
/// `ExpiredToken` and clears the stored refresh token, keeping the
/// record itself, so the session is revoked without losing the identity.
pub proof fn lemma_expired_refresh_revokes(
    m: JwtManagerView,
    s: Map<Seq<char>, SessionRecordView>,
    token: Seq<char>,
    rotate: bool,
    now: u64,
)
    ensures
        match spec_decode(m.refresh_secret, token, now) {
            DecodeOutcome::Expired(c) => (s.contains_key(lower_seq(c.sub)) && s[lower_seq(
                c.sub,
            )].current_refresh_token == Some(token)) ==> ({
                let outcome = spec_refresh(m, s, token, rotate, now);
                &&& outcome.0 == Err::<RefreshGrantView, ApiErrorResponse>(
                    ApiErrorResponse::ExpiredToken,
                )
                &&& outcome.1.contains_key(lower_seq(c.sub))
                &&& outcome.1[lower_seq(c.sub)].current_refresh_token is None
                &&& outcome.1[lower_seq(c.sub)].created_at == s[lower_seq(c.sub)].created_at
            }),
            _ => true,
        },
{
}

/// Law: once a refresh has reported `ExpiredToken` — and so revoked the
/// session — a second refresh with the same token can only fail with
/// `TokenMismatch`, never succeed.
pub proof fn lemma_revoked_refresh_never_succeeds(
    m: JwtManagerView,
    s: Map<Seq<char>, SessionRecordView>,
    token: Seq<char>,
    rotate1: bool,
    now1: u64,
    rotate2: bool,
    now2: u64,
)
    ensures
        ({
            let first = spec_refresh(m, s, token, rotate1, now1);
            first.0 == Err::<RefreshGrantView, ApiErrorResponse>(ApiErrorResponse::ExpiredToken)
                ==> ({
                let second = spec_refresh(m, first.1, token, rotate2, now2);
                &&& !(second.0 is Ok)
                &&& second.0 == Err::<RefreshGrantView, ApiErrorResponse>(
                    ApiErrorResponse::TokenMismatch,
                )
            })
        }),
{
}

} // verus!
