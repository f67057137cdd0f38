//! Options for the text sign / verify / key-generation commands.

use vstd::prelude::*;
use vstd::string::StringExecFns;

use crate::cli::str_eq;
use crate::cli::ParseFormatError;

verus! {

/// The algorithm selector for the message-authentication core: a closed
/// enumeration chosen once per invocation.
#[derive(Debug, Clone, Copy, PartialEq, Eq, Structural)]
pub enum TextSignFormat {
    Blake3,
    Ed25519,
}

impl TextSignFormat {
    /// The display name of the algorithm.
    pub fn label(&self) -> (r: String)
        ensures
            *self == TextSignFormat::Blake3 ==> r@ == "Blake3"@,
            *self == TextSignFormat::Ed25519 ==> r@ == "Ed25519"@,
    {
        match self {
            TextSignFormat::Blake3 => String::from_str("Blake3"),
            TextSignFormat::Ed25519 => String::from_str("Ed25519"),
        }
    }
}

/// Parse an algorithm name: exactly `blake3` or `ed25519`.
pub fn parse_format(s: &str) -> (r: Result<TextSignFormat, ParseFormatError>)
    ensures
        r matches Ok(f) ==> (f == TextSignFormat::Blake3 <==> s@ == "blake3"@),
        r matches Ok(f) ==> (f == TextSignFormat::Ed25519 <==> s@ == "ed25519"@),
        r is Ok <==> (s@ == "blake3"@ || s@ == "ed25519"@),
        r matches Err(e) ==> e == ParseFormatError::Unsupported,
{
    proof {
        reveal_strlit("blake3");
        reveal_strlit("ed25519");
        assert("blake3"@.len() == 6);
        assert("ed25519"@.len() == 7);
    }
    if str_eq(s, "blake3") {
        Ok(TextSignFormat::Blake3)
    } else if str_eq(s, "ed25519") {
        Ok(TextSignFormat::Ed25519)
    } else {
        Err(ParseFormatError::Unsupported)
    }
}

/// Options for signing: an input source, a key source, and the algorithm.
#[derive(Debug, Clone)]
pub struct TextSignOpts {
    pub input: String,
    pub key: String,
    pub format: TextSignFormat,
}

/// Options for verifying: an input source, a key source, the algorithm, and
/// the textual signature to check.
#[derive(Debug, Clone)]
pub struct TextVerifyOpts {
    pub input: String,
    pub key: String,
    pub format: TextSignFormat,
    pub sig: String,
}

/// Options for key generation: the algorithm and the output directory.
#[derive(Debug, Clone)]
pub struct TextGenKeyOpts {
    pub format: TextSignFormat,
    pub output: String,
}

/// The text subcommands.
#[derive(Debug, Clone)]
pub enum TextSubCommand {
    Sign(TextSignOpts),
    Verify(TextVerifyOpts),
    GenKey(TextGenKeyOpts),
}

} // verus!
