//! Options for the password-generation command.

use vstd::prelude::*;

verus! {

/// Options for password generation: the length and the character classes to
/// draw from.
#[derive(Debug, Clone, Copy)]
pub struct GenPassOpts {
    pub length: usize,
    pub uppercase: bool,
    pub lowercase: bool,
    pub number: bool,
    pub symbol: bool,
}

} // verus!
