//! Options for the JWT sign/verify subcommands.

use vstd::prelude::*;

verus! {

/// Sign a token or verify one.
#[derive(Debug, Clone)]
pub enum JwtSubCommand {
    Sign(JwtSignOpts),
    Verify(JwtVerifyOpts),
}

/// Options for signing a token: the key, the claims, and the expiry in
/// seconds from now.
#[derive(Debug, Clone)]
pub struct JwtSignOpts {
    pub key: String,
    pub sub: String,
    pub aud: String,
    pub exp: usize,
}

/// Options for verifying a token.
#[derive(Debug, Clone)]
pub struct JwtVerifyOpts {
    pub key: String,
    pub token: String,
}

} // verus!
