[package]
name = "votechain_auth"
version = "0.1.0"
edition = "2021"
publish = false

[dependencies]
jsonwebtoken = "9"
serde_json = "1"
alloy = { version = "*", default-features = false, features = ["std", "k256", "signers", "signer-local"] }
