//! The per-request gate: every inbound request except the explicit public
//! allow-list must carry a valid access token under the `Bearer` scheme.

use vstd::prelude::*;
use vstd::string::*;
use crate::errors::ApiErrorResponse;
use crate::strings::{has_prefix, str_eq, str_has_prefix};
use crate::token::{spec_decode, DecodeError, DecodeOutcome, JwtManager, JwtManagerView, TokenKind};

verus! {

/// The exact paths a request may reach without any credential: the
/// sign-in endpoint and the health endpoint.
pub open spec fn spec_public_path(path: Seq<char>) -> bool {
    path == "/auth/signin"@ || path == "/health"@
}

/// The scheme prefix a protected request's `Authorization` value must
/// begin with.
pub open spec fn bearer_prefix() -> Seq<char> {
    "Bearer "@
}

/// The view of an optional header value.
pub open spec fn opt_header_view(h: Option<&str>) -> Option<Seq<char>> {
    match h {
        Option::Some(s) => Option::Some(s@),
        Option::None => Option::None,
    }
}

/// The answer for one request: an allow-listed path needs no credential;
/// otherwise an absent or empty header is `NoToken`, a header without the
/// `Bearer ` prefix is `MissingBearerToken`, and the rest of the header is
/// decoded as an access token — valid lets the request through, expired
/// is `ExpiredToken` (the cue to call refresh), anything else is
/// `InvalidToken`.
pub open spec fn spec_ensure_auth(
    m: JwtManagerView,
    path: Seq<char>,
    header: Option<Seq<char>>,
    now: u64,
) -> Result<(), ApiErrorResponse> {
    if spec_public_path(path) {
        Ok(())
    } else {
        match header {
            Option::None => Err(ApiErrorResponse::NoToken),
            Option::Some(h) => {
                if h.len() == 0 {
                    Err(ApiErrorResponse::NoToken)
                } else if !has_prefix(h, bearer_prefix()) {
                    Err(ApiErrorResponse::MissingBearerToken)
                } else {
                    match spec_decode(
                        m.access_secret,
                        h.subrange(bearer_prefix().len() as int, h.len() as int),
                        now,
                    ) {
                        DecodeOutcome::Valid(_) => Ok(()),
                        DecodeOutcome::Expired(_) => Err(ApiErrorResponse::ExpiredToken),
                        DecodeOutcome::Invalid => Err(ApiErrorResponse::InvalidToken),
                    }
                }
            },
        }
    }
}

/// Decides whether the request for `path`, carrying the given
/// `Authorization` header value, may go through at time `now`. Exactly
/// the image of `spec_ensure_auth`; the request itself is not altered.
pub fn ensure_auth(
    manager: &JwtManager,
    path: &str,
    authorization: Option<&str>,
    now: u64,
) -> (r: Result<(), ApiErrorResponse>)
    ensures
        r == spec_ensure_auth(manager@, path@, opt_header_view(authorization), now),
{
    if str_eq(path, "/auth/signin") || str_eq(path, "/health") {
        return Ok(());
    }
    let header = match authorization {
        Some(h) => h,
        None => {
            return Err(ApiErrorResponse::NoToken);
        },
    };
    let len = header.unicode_len();
    if len == 0 {
        return Err(ApiErrorResponse::NoToken);
    }
    if !str_has_prefix(header, "Bearer ") {
        return Err(ApiErrorResponse::MissingBearerToken);
    }
    proof {
        reveal_strlit("Bearer ");
    }
    let token = header.substring_char(7, len);
    match manager.decode_token(token, TokenKind::Access, now) {
        Ok(_) => Ok(()),
        Err(DecodeError::Expired(_)) => Err(ApiErrorResponse::ExpiredToken),
        Err(DecodeError::Invalid) => Err(ApiErrorResponse::InvalidToken),
    }
}

} // verus!
