//! Options for the JWT sign / verify commands.

use vstd::prelude::*;

verus! {

/// Options for issuing a token: subject, audience, and an expiry such as
/// `14d` for fourteen days from now.
#[derive(Debug, Clone)]
pub struct JwtSignOpts {
    pub sub: String,
    pub aud: String,
    pub exp: String,
}

/// Options for verifying a token against an expected audience.
#[derive(Debug, Clone)]
pub struct JwtVerifyOpts {
    pub token: String,
    pub aud: String,
}

/// The JWT subcommands.
#[derive(Debug, Clone)]
pub enum JwtSubCommand {
    Sign(JwtSignOpts),
    Verify(JwtVerifyOpts),
}

} // verus!
