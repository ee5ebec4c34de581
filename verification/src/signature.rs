//! Wallet-signature verification: recovering the signer address from a
//! signed challenge message and comparing it, case-insensitively, with the
//! address the client claims.

use vstd::prelude::*;
use crate::errors::ApiErrorResponse;
use crate::strings::{lower_seq, to_lowercase};

verus! {

/// The address that parsing `signature` as a recoverable ECDSA signature
/// and recovering the signer of the prefixed personal-sign hash of
/// `message` yields, in the form addresses are displayed in; `None` when
/// the signature does not parse or recovery fails. Recovery is a pure
/// function of the two arguments.
pub uninterp spec fn recovered_of(message: Seq<char>, signature: Seq<char>) -> Option<Seq<char>>;

/// Relies on `alloy::primitives::Signature`: `from_str` parses a 65-byte
/// r‖s‖v hex signature, `recover_address_from_msg` recovers the signer
/// address from the EIP-191 prefixed hash of the message, and the address
/// is rendered by its `Display` form. All three depend on the two
/// arguments alone.
#[verifier::external_body]
fn recover_signer(message: &str, signature: &str) -> (r: Option<String>)
    ensures
        match r {
            Some(a) => recovered_of(message@, signature@) == Some(a@),
            None => recovered_of(message@, signature@) is None,
        },
{
    let sig = match <alloy::primitives::Signature as std::str::FromStr>::from_str(signature) {
        Ok(s) => s,
        Err(_) => return None,
    };
    match sig.recover_address_from_msg(message) {
        Ok(addr) => Some(addr.to_string()),
        Err(_) => None,
    }
}

/// Whether `signature` over `message` proves control of the claimed
/// address: an address must be recoverable and must equal the claimed one
/// under case-insensitive comparison.
pub open spec fn spec_verify(message: Seq<char>, signature: Seq<char>, claimed: Seq<char>) -> bool {
    match recovered_of(message, signature) {
        Option::Some(rec) => lower_seq(rec) == lower_seq(claimed),
        Option::None => false,
    }
}

/// Checks that `signature` over `message` proves control of
/// `claimed_address`. Fails with `InvalidSignature` exactly when the
/// signature cannot be parsed, recovery fails, or the recovered address
/// differs from the claimed one case-insensitively. Pure: no side
/// effects.
pub fn verify(message: &str, signature: &str, claimed_address: &str) -> (r: Result<
    (),
    ApiErrorResponse,
>)
    ensures
        r is Ok <==> spec_verify(message@, signature@, claimed_address@),
        r is Err ==> r == Err::<(), ApiErrorResponse>(ApiErrorResponse::InvalidSignature),
{
    match recover_signer(message, signature) {
        None => Err(ApiErrorResponse::InvalidSignature),
        Some(rec) => {
            let claimed_lower = to_lowercase(claimed_address);
            let recovered_lower = to_lowercase(rec.as_str());
            if claimed_lower == recovered_lower {
                Ok(())
            } else {
                Err(ApiErrorResponse::InvalidSignature)
            }
        },
    }
}

/// Law: address comparison is case-insensitive — two claimed addresses
/// with the same lowercase form are accepted or rejected alike, whatever
/// the message and signature.
pub proof fn lemma_verify_case_insensitive(
    message: Seq<char>,
    signature: Seq<char>,
    a1: Seq<char>,
    a2: Seq<char>,
)
    requires
        lower_seq(a1) == lower_seq(a2),
    ensures
        spec_verify(message, signature, a1) == spec_verify(message, signature, a2),
{
}

} // verus!
