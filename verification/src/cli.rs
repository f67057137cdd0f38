//! Command-line option types and the validators used while parsing them.

use vstd::prelude::*;
use vstd::string::StringExecFns;

pub mod base64_opt;
pub mod chacha20poly1305;
pub mod csv_opt;
pub mod genpass_opt;
pub mod http;
pub mod jwt;
pub mod text;

use crate::cli::base64_opt::Base64SubCommand;
use crate::cli::csv_opt::CsvOpts;
use crate::cli::genpass_opt::GenPassOpts;
use crate::cli::http::HttpSubCommand;
use crate::cli::text::TextSubCommand;

verus! {

/// The top-level command-line options: exactly one subcommand.
#[derive(Debug, Clone)]
pub struct Opts {
    pub cmd: SubCommand,
}

/// The toolkit's subcommands.
#[derive(Debug, Clone)]
pub enum SubCommand {
    Csv(CsvOpts),
    GenPass(GenPassOpts),
    Base64(Base64SubCommand),
    Text(TextSubCommand),
    Http(HttpSubCommand),
}

/// Error returned by the format parsers when the name is not one of the
/// supported formats.
#[derive(Debug, Clone, Copy, PartialEq, Eq, Structural)]
pub enum ParseFormatError {
    Unsupported,
}

/// Lowercase image of a character sequence, as `str::to_lowercase` computes
/// it: a function of the characters alone.
pub uninterp spec fn lower_of(s: Seq<char>) -> Seq<char>;

/// Relies on str::to_lowercase: the result depends on the characters alone.
#[verifier::external_body]
pub(crate) fn to_lowercase(s: &str) -> (r: String)
    ensures
        r@ == lower_of(s@),
{
    s.to_lowercase()
}

/// Character-for-character comparison of two string slices.
pub(crate) fn str_eq(a: &str, b: &str) -> (r: bool)
    ensures
        r == (a@ == b@),
{
    let owned_a = String::from_str(a);
    let owned_b = String::from_str(b);
    owned_a == owned_b
}

/// Relies on std::path::Path::exists: whether the path currently names an
/// entry on disk. The answer depends on the file system, so nothing more is
/// promised of it.
#[verifier::external_body]
fn path_exists(name: &str) -> bool {
    std::path::Path::new(name).exists()
}

/// Relies on std::path::Path::is_dir: whether the path currently names a
/// directory on disk. The answer depends on the file system, so nothing more
/// is promised of it.
#[verifier::external_body]
fn path_is_dir(name: &str) -> bool {
    std::path::Path::new(name).is_dir()
}

/// Accept `-` (standard input) or the name of an existing file; anything
/// else is rejected with a fixed message.
pub fn verify_exists(filename: &str) -> (r: Result<String, String>)
    ensures
        r matches Ok(name) ==> name@ == filename@,
        filename@ == "-"@ ==> r is Ok,
        r matches Err(msg) ==> msg@ == "File does not exist"@ && filename@ != "-"@,
{
    if str_eq(filename, "-") || path_exists(filename) {
        Ok(String::from_str(filename))
    } else {
        Err(String::from_str("File does not exist"))
    }
}

/// Accept only the name of an existing file; `-` is not special here.
pub fn verify_file_exists(path: &str) -> (r: Result<String, String>)
    ensures
        r matches Ok(name) ==> name@ == path@,
        r matches Err(msg) ==> msg@ == "File does not exist"@,
{
    if path_exists(path) {
        Ok(String::from_str(path))
    } else {
        Err(String::from_str("File does not exist"))
    }
}

/// Accept only the name of an existing directory.
pub fn verify_path_exists(path: &str) -> (r: Result<String, &'static str>)
    ensures
        r matches Ok(name) ==> name@ == path@,
        r matches Err(msg) ==> msg@ == "Path does not exist or is not a directory"@,
{
    if path_exists(path) && path_is_dir(path) {
        Ok(String::from_str(path))
    } else {
        Err("Path does not exist or is not a directory")
    }
}

} // verus!
