//! Issuing and decoding of the signed access and refresh tokens.
//!
//! A token is an opaque signed string carrying a subject (the wallet
//! address), the fixed service audience and an expiry in epoch seconds.
//! Signing and signature checking are done by the `jsonwebtoken` crate with
//! HMAC-SHA256 and a distinct secret per token kind; the audience and expiry
//! rules are checked here.

use vstd::prelude::*;
use crate::strings::str_eq;

verus! {

/// Seconds an access token stays valid: 15 minutes.
pub const ACCESS_TOKEN_EXP: u64 = 15 * 60;

/// Seconds a refresh token stays valid: 30 days.
pub const REFRESH_TOKEN_EXP: u64 = 30 * 24 * 60 * 60;

/// The fixed audience naming this service.
pub open spec fn spec_audience() -> Seq<char> {
    "VoteChain"@
}

/// The fixed audience string carried by every issued token.
pub fn audience() -> (r: &'static str)
    ensures
        r@ == spec_audience(),
{
    "VoteChain"
}

/// The claims a token carries.
#[derive(Debug)]
pub struct Claims {
    /// Subject: the wallet address of the authenticated identity.
    pub sub: String,
    /// Audience: always the fixed service audience on issued tokens.
    pub aud: String,
    /// Expiry, in seconds since the epoch.
    pub exp: u64,
}

/// The mathematical content of a `Claims` value.
pub struct ClaimsView {
    pub sub: Seq<char>,
    pub aud: Seq<char>,
    pub exp: u64,
}

impl View for Claims {
    type V = ClaimsView;

    open spec fn view(&self) -> ClaimsView {
        ClaimsView { sub: self.sub@, aud: self.aud@, exp: self.exp }
    }
}

/// Which of the two token kinds a string is to be read as; each kind is
/// signed with its own secret.
#[derive(Clone, Copy, Debug, PartialEq, Eq, Structural)]
pub enum TokenKind {
    Access,
    Refresh,
}

/// Why a token failed to decode. Callers branch on this distinction: an
/// expired token means "ask to refresh", an invalid one is rejected
/// outright.
#[derive(Debug)]
pub enum DecodeError {
    /// Structurally or cryptographically invalid, or wrong audience.
    Invalid,
    /// Validly signed but past expiry; the claims stay readable so that the
    /// right session can still be located and revoked.
    Expired(Claims),
}

/// The three possible outcomes of decoding a token at a given time.
pub enum DecodeOutcome {
    Valid(ClaimsView),
    Expired(ClaimsView),
    Invalid,
}

/// The signed token that encoding a subject, an audience and an expiry
/// under a secret produces.
pub uninterp spec fn token_of(secret: Seq<char>, sub: Seq<char>, aud: Seq<char>, exp: u64) -> Seq<
    char,
>;

/// The payload that signature-checking and parsing a token under a secret
/// yields: `None` when the token is malformed, carries a wrong signature or
/// misses one of the subject, audience and expiry claims.
pub uninterp spec fn payload_of(secret: Seq<char>, token: Seq<char>) -> Option<
    (Seq<char>, Seq<char>, u64),
>;

/// Both facts the issuer knows of a fresh token: its value, and that it
/// decodes back to exactly the claims it was issued with.
pub open spec fn fresh_token(secret: Seq<char>, tok: Seq<char>, sub: Seq<char>, exp: u64) -> bool {
    &&& tok == token_of(secret, sub, spec_audience(), exp)
    &&& payload_of(secret, tok) == Some((sub, spec_audience(), exp))
}

/// The outcome of decoding `token` under `secret` at time `now`: the
/// payload must parse under a valid signature, the audience must be the
/// fixed service audience, and the expiry must lie strictly in the future.
pub open spec fn spec_decode(secret: Seq<char>, token: Seq<char>, now: u64) -> DecodeOutcome {
    match payload_of(secret, token) {
        Option::None => DecodeOutcome::Invalid,
        Option::Some(p) => {
            if p.1 != spec_audience() {
                DecodeOutcome::Invalid
            } else if p.2 <= now {
                DecodeOutcome::Expired(ClaimsView { sub: p.0, aud: p.1, exp: p.2 })
            } else {
                DecodeOutcome::Valid(ClaimsView { sub: p.0, aud: p.1, exp: p.2 })
            }
        },
    }
}

/// Law: a token issued for subject `sub` with expiry `exp` decodes, under
/// the secret it was signed with, to exactly those claims while
/// `now < exp`, and as expired from the moment `now` reaches `exp`.
pub proof fn lemma_fresh_token_decode(
    secret: Seq<char>,
    tok: Seq<char>,
    sub: Seq<char>,
    exp: u64,
    now: u64,
)
    ensures
        fresh_token(secret, tok, sub, exp) ==> spec_decode(secret, tok, now) == (if now < exp {
            DecodeOutcome::Valid(ClaimsView { sub, aud: spec_audience(), exp })
        } else {
            DecodeOutcome::Expired(ClaimsView { sub, aud: spec_audience(), exp })
        }),
{
}

/// Relies on `jsonwebtoken::encode` with HMAC-SHA256: the token is a
/// deterministic function of the secret and the claims, and
/// `jsonwebtoken::decode` under the same secret recovers exactly the
/// claims that were encoded. Encoding with an HMAC key cannot fail.
#[verifier::external_body]
fn encode_claims(secret: &str, sub: &str, aud: &str, exp: u64) -> (r: String)
    ensures
        r@ == token_of(secret@, sub@, aud@, exp),
        payload_of(secret@, r@) == Some((sub@, aud@, exp)),
{
    let mut claims = serde_json::Map::new();
    claims.insert("aud".to_string(), serde_json::Value::String(aud.to_string()));
    claims.insert("exp".to_string(), serde_json::Value::from(exp));
    claims.insert("sub".to_string(), serde_json::Value::String(sub.to_string()));
    let key = jsonwebtoken::EncodingKey::from_secret(secret.as_bytes());
    jsonwebtoken::encode(&jsonwebtoken::Header::default(), &serde_json::Value::Object(claims), &key)
        .expect("HMAC signing does not fail")
}

/// Relies on `jsonwebtoken::decode` with HMAC-SHA256, with the library's
/// own expiry and audience checks switched off: the outcome depends only
/// on the secret and the token, and is the parsed subject, audience and
/// expiry exactly when the token is well formed under that secret.
#[verifier::external_body]
fn decode_payload(secret: &str, token: &str) -> (r: Option<(String, String, u64)>)
    ensures
        match r {
            Some(p) => payload_of(secret@, token@) == Some((p.0@, p.1@, p.2)),
            None => payload_of(secret@, token@) is None,
        },
{
    let mut validation = jsonwebtoken::Validation::new(jsonwebtoken::Algorithm::HS256);
    validation.validate_exp = false;
    validation.validate_aud = false;
    validation.required_spec_claims = std::collections::HashSet::new();
    let key = jsonwebtoken::DecodingKey::from_secret(secret.as_bytes());
    let data = match jsonwebtoken::decode::<serde_json::Value>(token, &key, &validation) {
        Ok(d) => d,
        Err(_) => return None,
    };
    let sub = data.claims.get("sub")?.as_str()?.to_string();
    let aud = data.claims.get("aud")?.as_str()?.to_string();
    let exp = data.claims.get("exp")?.as_u64()?;
    Some((sub, aud, exp))
}

/// The authenticated identity: a wallet address.
#[derive(Debug)]
pub struct Identity {
    /// Address of the user, held lowercase.
    pub address: String,
}

/// A freshly issued pair of tokens.
#[derive(Debug)]
pub struct TokenPair {
    /// The short-lived access token.
    pub token: String,
    /// The long-lived refresh token.
    pub refresh_token: String,
}

/// Issues and decodes the signed access and refresh tokens. The two kinds
/// are signed with distinct secrets, so a leaked access-signing key cannot
/// forge refresh tokens and vice versa.
pub struct JwtManager {
    access_secret: String,
    refresh_secret: String,
    access_token_exp: u64,
    refresh_token_exp: u64,
}

/// The mathematical content of a `JwtManager`.
pub struct JwtManagerView {
    pub access_secret: Seq<char>,
    pub refresh_secret: Seq<char>,
    pub access_token_exp: u64,
    pub refresh_token_exp: u64,
}

impl JwtManagerView {
    /// The signing secret of the given token kind.
    pub open spec fn secret_for(self, kind: TokenKind) -> Seq<char> {
        match kind {
            TokenKind::Access => self.access_secret,
            TokenKind::Refresh => self.refresh_secret,
        }
    }
}

impl View for JwtManager {
    type V = JwtManagerView;

    closed spec fn view(&self) -> JwtManagerView {
        JwtManagerView {
            access_secret: self.access_secret@,
            refresh_secret: self.refresh_secret@,
            access_token_exp: self.access_token_exp,
            refresh_token_exp: self.refresh_token_exp,
        }
    }
}

impl JwtManager {
    /// Creates a manager with the given secrets and the default expiries:
    /// 15 minutes for access tokens, 30 days for refresh tokens.
    pub fn new(access_secret: String, refresh_secret: String) -> (r: JwtManager)
        ensures
            r@ == (JwtManagerView {
                access_secret: access_secret@,
                refresh_secret: refresh_secret@,
                access_token_exp: ACCESS_TOKEN_EXP,
                refresh_token_exp: REFRESH_TOKEN_EXP,
            }),
    {
        JwtManager {
            access_secret,
            refresh_secret,
            access_token_exp: ACCESS_TOKEN_EXP,
            refresh_token_exp: REFRESH_TOKEN_EXP,
        }
    }

    /// Signs the given claims with the given secret.
    pub fn generate_token(&self, claims: Claims, secret: &str) -> (r: String)
        ensures
            r@ == token_of(secret@, claims.sub@, claims.aud@, claims.exp),
            payload_of(secret@, r@) == Some((claims.sub@, claims.aud@, claims.exp)),
    {
        encode_claims(secret, claims.sub.as_str(), claims.aud.as_str(), claims.exp)
    }

    /// Issues the access and refresh tokens for an identity at time `now`:
    /// both carry the identity's address as subject and the fixed service
    /// audience; the access token expires `ACCESS_TOKEN_EXP` seconds from
    /// now, the refresh token `REFRESH_TOKEN_EXP` seconds from now.
    pub fn generate_token_pair(&self, identity: Identity, now: u64) -> (r: TokenPair)
        requires
            now + self@.access_token_exp <= u64::MAX,
            now + self@.refresh_token_exp <= u64::MAX,
        ensures
            fresh_token(
                self@.access_secret,
                r.token@,
                identity.address@,
                (now + self@.access_token_exp) as u64,
            ),
            fresh_token(
                self@.refresh_secret,
                r.refresh_token@,
                identity.address@,
                (now + self@.refresh_token_exp) as u64,
            ),
    {
        let access_exp = now + self.access_token_exp;
        let refresh_exp = now + self.refresh_token_exp;
        let token = encode_claims(
            self.access_secret.as_str(),
            identity.address.as_str(),
            audience(),
            access_exp,
        );
        let refresh_token = encode_claims(
            self.refresh_secret.as_str(),
            identity.address.as_str(),
            audience(),
            refresh_exp,
        );
        TokenPair { token, refresh_token }
    }

    /// Decodes a token of the given kind at time `now`. The result is an
    /// exact image of `spec_decode` under the kind's secret: the claims on
    /// success, the still-readable claims behind `DecodeError::Expired`
    /// when only the expiry failed, and `DecodeError::Invalid` otherwise.
    pub fn decode_token(&self, token: &str, kind: TokenKind, now: u64) -> (r: Result<
        Claims,
        DecodeError,
    >)
        ensures
            match r {
                Ok(c) => spec_decode(self@.secret_for(kind), token@, now) == DecodeOutcome::Valid(
                    c@,
                ),
                Err(DecodeError::Expired(c)) => spec_decode(self@.secret_for(kind), token@, now)
                    == DecodeOutcome::Expired(c@),
                Err(DecodeError::Invalid) => spec_decode(self@.secret_for(kind), token@, now)
                    == DecodeOutcome::Invalid,
            },
    {
        let secret = match kind {
            TokenKind::Access => self.access_secret.as_str(),
            TokenKind::Refresh => self.refresh_secret.as_str(),
        };
        match decode_payload(secret, token) {
            None => Err(DecodeError::Invalid),
            Some(p) => {
                let (sub, aud, exp) = p;
                if !str_eq(aud.as_str(), audience()) {
                    Err(DecodeError::Invalid)
                } else if exp <= now {
                    Err(DecodeError::Expired(Claims { sub, aud, exp }))
                } else {
                    Ok(Claims { sub, aud, exp })
                }
            },
        }
    }

    /// Issues a new access token carrying the same subject as the given
    /// claims, with a fresh expiry `ACCESS_TOKEN_EXP` seconds from `now`.
    /// Used only after the refresh token has been validated against the
    /// stored session.
    pub fn reissue_access(&self, claims: &Claims, now: u64) -> (r: String)
        requires
            now + self@.access_token_exp <= u64::MAX,
        ensures
            fresh_token(
                self@.access_secret,
                r@,
                claims.sub@,
                (now + self@.access_token_exp) as u64,
            ),
    {
        let exp = now + self.access_token_exp;
        encode_claims(self.access_secret.as_str(), claims.sub.as_str(), audience(), exp)
    }

    /// Issues a new refresh token carrying the same subject as the given
    /// claims, with a fresh expiry `REFRESH_TOKEN_EXP` seconds from
    /// `now`. Used when rotation on refresh is switched on.
    pub fn rotate_refresh(&self, claims: &Claims, now: u64) -> (r: String)
        requires
            now + self@.refresh_token_exp <= u64::MAX,
        ensures
            fresh_token(
                self@.refresh_secret,
                r@,
                claims.sub@,
                (now + self@.refresh_token_exp) as u64,
            ),
    {
        let exp = now + self.refresh_token_exp;
        encode_claims(self.refresh_secret.as_str(), claims.sub.as_str(), audience(), exp)
    }

    /// Decodes a refresh token and, exactly when it is valid at `now`,
    /// issues a fresh access token for its subject.
    pub fn new_access_token_from_refresh(&self, refresh_token: &str, now: u64) -> (r: Option<
        String,
    >)
        requires
            now + self@.access_token_exp <= u64::MAX,
        ensures
            match r {
                Some(t) => spec_decode(self@.refresh_secret, refresh_token@, now)
                    matches DecodeOutcome::Valid(c) && fresh_token(
                    self@.access_secret,
                    t@,
                    c.sub,
                    (now + self@.access_token_exp) as u64,
                ),
                None => !(spec_decode(self@.refresh_secret, refresh_token@, now) is Valid),
            },
    {
        match self.decode_token(refresh_token, TokenKind::Refresh, now) {
            Ok(c) => Some(self.reissue_access(&c, now)),
            Err(_) => None,
        }
    }
}

} // verus!
