//! The sign-in flow: a signed challenge proves control of an address,
//! a token pair is issued, and the session record for that address is
//! created or replaced.

use vstd::prelude::*;
use crate::errors::ApiErrorResponse;
use crate::session::{SessionRecord, SessionRecordView, SessionStore};
use crate::signature::{spec_verify, verify};
use crate::strings::{lower_seq, to_lowercase};
use crate::token::{fresh_token, Identity, JwtManager, TokenPair};

verus! {

/// The record the store holds for `address` after a successful sign-in at
/// `now` that issued `refresh_token`: the creation time is kept where a
/// record already existed and set to `now` where none did.
pub open spec fn signed_in_record(
    prev: Map<Seq<char>, SessionRecordView>,
    address: Seq<char>,
    refresh_token: Seq<char>,
    now: u64,
) -> SessionRecordView {
    SessionRecordView {
        address,
        current_refresh_token: Some(refresh_token),
        last_login_at: now,
        created_at: if prev.contains_key(address) {
            prev[address].created_at
        } else {
            now
        },
    }
}

/// Signs an identity in. Succeeds exactly when `signature` over `message`
/// proves control of `account`; the address is lowercased at this ingress
/// boundary, a token pair is issued for it, and the session record under
/// the lowercase address is created or updated to hold the new refresh
/// token. On failure the store is untouched and the error is
/// `InvalidSignature`.
pub fn sign_in(
    manager: &JwtManager,
    store: &mut SessionStore,
    message: &str,
    signature: &str,
    account: &str,
    now: u64,
) -> (r: Result<TokenPair, ApiErrorResponse>)
    requires
        old(store).wf(),
        now + manager@.access_token_exp <= u64::MAX,
        now + manager@.refresh_token_exp <= u64::MAX,
    ensures
        final(store).wf(),
        r is Ok <==> spec_verify(message@, signature@, account@),
        r matches Err(e) ==> e == ApiErrorResponse::InvalidSignature && final(store)@ == old(
            store,
        )@,
        r matches Ok(pair) ==> ({
            let address = lower_seq(account@);
            &&& fresh_token(
                manager@.access_secret,
                pair.token@,
                address,
                (now + manager@.access_token_exp) as u64,
            )
            &&& fresh_token(
                manager@.refresh_secret,
                pair.refresh_token@,
                address,
                (now + manager@.refresh_token_exp) as u64,
            )
            &&& final(store)@ == old(store)@.insert(
                address,
                signed_in_record(old(store)@, address, pair.refresh_token@, now),
            )
        }),
{
    match verify(message, signature, account) {
        Ok(u) => u,
        Err(e) => {
            return Err(e);
        },
    };
    let address = to_lowercase(account);
    let identity = Identity { address: address.clone() };
    let pair = manager.generate_token_pair(identity, now);
    let existed = store.update(address.as_str(), Some(pair.refresh_token.clone()), now);
    if !existed {
        store.save(
            SessionRecord {
                address,
                current_refresh_token: Some(pair.refresh_token.clone()),
                last_login_at: now,
                created_at: now,
            },
        );
    }
    Ok(pair)
}

} // verus!
