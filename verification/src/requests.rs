//! Plain request and claim shapes carried over the wire by routes outside
//! the authentication core.

use vstd::prelude::*;

verus! {

/// The claims of a self-contained vote token: the poll, the chosen
/// option, and the voting wallet with its signature.
#[derive(Debug)]
pub struct JwtClaims {
    pub poll_id: u32,
    pub option: String,
    pub wallet: String,
    pub signature: String,
    pub exp: u64,
}

/// The body of a cast-vote request.
#[derive(Debug)]
pub struct CastVoteRequest {
    /// The poll voted in.
    pub poll_id: u64,
    /// The option the user selected.
    pub option: String,
}

/// The body of a vote request carrying a self-contained vote token.
#[derive(Debug)]
pub struct VoteRequest {
    pub token: String,
}

} // verus!
