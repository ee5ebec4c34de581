//! Wallet-signature authentication and session management.
//!
//! A client proves control of a blockchain-style address by signing a
//! challenge message; the service then issues a short-lived access token and
//! a longer-lived refresh token, both HMAC-signed, and keeps one session
//! record per address whose stored refresh token must stay consistent with
//! every refresh request.

pub mod errors;
pub mod gate;
pub mod refresh;
pub mod requests;
pub mod session;
pub mod strings;
pub mod signature;
pub mod signin;
pub mod token;
