//! Options for the symmetric-encryption commands.

use vstd::prelude::*;

verus! {

/// Options for encrypting: an input source and a key source.
#[derive(Debug, Clone)]
pub struct TextEncryptOpts {
    pub input: String,
    pub key: String,
}

/// Options for decrypting: an input source and a key source.
#[derive(Debug, Clone)]
pub struct TextDecryptOpts {
    pub input: String,
    pub key: String,
}

/// Options for generating a fresh symmetric key into a directory.
#[derive(Debug, Clone)]
pub struct TextChacCha20GenKeyOpts {
    pub output: String,
}

/// The symmetric-encryption subcommands.
#[derive(Debug, Clone)]
pub enum Chacha20Poly1305SubCommand {
    Encrypt(TextEncryptOpts),
    Decrypt(TextDecryptOpts),
    GenKey(TextChacCha20GenKeyOpts),
}

} // verus!
