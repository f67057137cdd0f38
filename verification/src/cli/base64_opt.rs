//! Options for the base64 encode / decode commands.

use vstd::prelude::*;
use vstd::string::StringExecFns;

use crate::cli::lower_of;
use crate::cli::str_eq;
use crate::cli::to_lowercase;
use crate::cli::ParseFormatError;

verus! {

/// The base64 alphabet selector: the standard alphabet with padding, or the
/// URL-safe alphabet without padding.
#[derive(Debug, Clone, Copy, PartialEq, Eq, Structural)]
pub enum Base64Format {
    Standard,
    Urlsafe,
}

impl Base64Format {
    /// The display name of the format.
    pub fn label(&self) -> (r: String)
        ensures
            *self == Base64Format::Standard ==> r@ == "Standard"@,
            *self == Base64Format::Urlsafe ==> r@ == "URL-safe"@,
    {
        match self {
            Base64Format::Standard => String::from_str("Standard"),
            Base64Format::Urlsafe => String::from_str("URL-safe"),
        }
    }
}

/// Parse a base64 format name, case-insensitively: `standard` or `urlsafe`.
pub fn parse_base64_format(s: &str) -> (r: Result<Base64Format, ParseFormatError>)
    ensures
        r matches Ok(f) ==> (f == Base64Format::Standard <==> lower_of(s@) == "standard"@),
        r matches Ok(f) ==> (f == Base64Format::Urlsafe <==> lower_of(s@) == "urlsafe"@),
        r is Ok <==> (lower_of(s@) == "standard"@ || lower_of(s@) == "urlsafe"@),
        r matches Err(e) ==> e == ParseFormatError::Unsupported,
{
    proof {
        reveal_strlit("standard");
        reveal_strlit("urlsafe");
        assert("standard"@.len() == 8);
        assert("urlsafe"@.len() == 7);
    }
    let lowered = to_lowercase(s);
    if str_eq(lowered.as_str(), "standard") {
        Ok(Base64Format::Standard)
    } else if str_eq(lowered.as_str(), "urlsafe") {
        Ok(Base64Format::Urlsafe)
    } else {
        Err(ParseFormatError::Unsupported)
    }
}

/// Options for encoding: an input source and the alphabet.
#[derive(Debug, Clone)]
pub struct Base64EncodeOpts {
    pub input: String,
    pub format: Base64Format,
}

/// Options for decoding: an input source and the alphabet.
#[derive(Debug, Clone)]
pub struct Base64DecodeOpts {
    pub input: String,
    pub format: Base64Format,
}

/// The base64 subcommands.
#[derive(Debug, Clone)]
pub enum Base64SubCommand {
    Base64Encode(Base64EncodeOpts),
    Base64Decode(Base64DecodeOpts),
}

} // verus!
