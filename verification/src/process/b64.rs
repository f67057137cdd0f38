//! Base64 encoding and decoding of byte buffers, with the whitespace
//! trimming that textual input needs before decoding.

use vstd::prelude::*;
use vstd::string::StrSliceExecFns;

use crate::cli::base64_opt::Base64Format;
use base64::Engine;

verus! {

/// Error of base64 decoding: the input is not a canonical encoding.
#[derive(Debug, Clone, Copy, PartialEq, Eq, Structural)]
pub enum Base64Error {
    InvalidEncoding,
}

/// The textual base64 image of `data`: the standard alphabet with padding
/// when `urlsafe` is false, the URL-safe alphabet without padding when it is
/// true. A pure function of the alphabet choice and the bytes.
pub uninterp spec fn b64_of(urlsafe: bool, data: Seq<u8>) -> Seq<char>;

/// Relies on the base64 engines STANDARD and URL_SAFE_NO_PAD
/// (Engine::encode): a deterministic text image of the bytes.
#[verifier::external_body]
pub(crate) fn b64_encode(data: &[u8], urlsafe: bool) -> (r: String)
    ensures
        r@ == b64_of(urlsafe, data@),
{
    if urlsafe {
        base64::engine::general_purpose::URL_SAFE_NO_PAD.encode(data)
    } else {
        base64::engine::general_purpose::STANDARD.encode(data)
    }
}

#[verifier::external_type_specification]
#[verifier::external_body]
pub struct ExDecodeError(base64::DecodeError);

/// Relies on Engine::decode of the same engines. Both are configured
/// canonically (padding required to be canonical, no trailing bits), so
/// decoding succeeds exactly on encodings and inverts them; an encoding
/// determines its bytes.
#[verifier::external_body]
pub(crate) fn b64_decode(s: &str, urlsafe: bool) -> (r: Result<Vec<u8>, base64::DecodeError>)
    ensures
        r matches Ok(d) ==> s@ == b64_of(urlsafe, d@),
        r matches Ok(d) ==> forall|d2: Seq<u8>| s@ == b64_of(urlsafe, d2) ==> d2 == d@,
        forall|d: Seq<u8>| s@ == b64_of(urlsafe, d) ==> r is Ok,
{
    if urlsafe {
        base64::engine::general_purpose::URL_SAFE_NO_PAD.decode(s)
    } else {
        base64::engine::general_purpose::STANDARD.decode(s)
    }
}

/// The Unicode whitespace characters (the White_Space property, as string
/// trimming removes them from either end of textual input).
pub open spec fn is_edge_space(c: char) -> bool {
    let n = c as u32;
    ||| n == 0x20 || n == 0x09 || n == 0x0A || n == 0x0B || n == 0x0C || n == 0x0D
    ||| n == 0x85 || n == 0xA0 || n == 0x1680
    ||| (0x2000 <= n && n <= 0x200A)
    ||| n == 0x2028 || n == 0x2029 || n == 0x202F || n == 0x205F || n == 0x3000
}

/// The sequence without its leading whitespace.
pub open spec fn trim_front(s: Seq<char>) -> Seq<char>
    decreases s.len(),
{
    if s.len() > 0 && is_edge_space(s[0]) {
        trim_front(s.drop_first())
    } else {
        s
    }
}

/// The sequence without its trailing whitespace.
pub open spec fn trim_back(s: Seq<char>) -> Seq<char>
    decreases s.len(),
{
    if s.len() > 0 && is_edge_space(s.last()) {
        trim_back(s.drop_last())
    } else {
        s
    }
}

/// The sequence without whitespace at either end.
pub open spec fn trim_spec(s: Seq<char>) -> Seq<char> {
    trim_back(trim_front(s))
}

fn is_space_char(c: char) -> (r: bool)
    ensures
        r == is_edge_space(c),
{
    let n = c as u32;
    n == 0x20 || n == 0x09 || n == 0x0A || n == 0x0B || n == 0x0C || n == 0x0D || n == 0x85 || n
        == 0xA0 || n == 0x1680 || (0x2000 <= n && n <= 0x200A) || n == 0x2028 || n == 0x2029 || n
        == 0x202F || n == 0x205F || n == 0x3000
}

/// Strip whitespace from both ends of a string slice.
pub fn trim_str(s: &str) -> (t: &str)
    ensures
        t@ == trim_spec(s@),
{
    let len = s.unicode_len();
    proof {
        assert(s@.subrange(0, len as int) =~= s@);
    }
    let mut lo: usize = 0;
    while lo < len && is_space_char(s.get_char(lo))
        invariant
            0 <= lo <= len,
            len == s@.len(),
            trim_front(s@) == trim_front(s@.subrange(lo as int, len as int)),
        decreases len - lo,
    {
        proof {
            let tail = s@.subrange(lo as int, len as int);
            assert(tail.drop_first() =~= s@.subrange(lo as int + 1, len as int));
        }
        lo = lo + 1;
    }
    proof {
        assert(trim_front(s@) == s@.subrange(lo as int, len as int));
    }
    let mut hi: usize = len;
    while hi > lo && is_space_char(s.get_char(hi - 1))
        invariant
            lo <= hi <= len,
            len == s@.len(),
            trim_front(s@) == s@.subrange(lo as int, len as int),
            trim_back(s@.subrange(lo as int, len as int)) == trim_back(
                s@.subrange(lo as int, hi as int),
            ),
        decreases hi,
    {
        proof {
            let part = s@.subrange(lo as int, hi as int);
            assert(part.drop_last() =~= s@.subrange(lo as int, hi as int - 1));
        }
        hi = hi - 1;
    }
    s.substring_char(lo, hi)
}

/// Encode a byte buffer in the selected base64 format.
pub fn process_base64_encode(data: &[u8], format: Base64Format) -> (r: String)
    ensures
        r@ == b64_of(format is Urlsafe, data@),
{
    match format {
        Base64Format::Standard => b64_encode(data, false),
        Base64Format::Urlsafe => b64_encode(data, true),
    }
}

/// Decode textual base64 input in the selected format, ignoring whitespace
/// at either end. Succeeds exactly when the trimmed text is an encoding, and
/// returns the bytes it encodes.
pub fn process_base64_decode(s: &str, format: Base64Format) -> (r: Result<Vec<u8>, Base64Error>)
    ensures
        r matches Ok(d) ==> trim_spec(s@) == b64_of(format is Urlsafe, d@),
        r matches Ok(d) ==> forall|d2: Seq<u8>|
            trim_spec(s@) == #[trigger] b64_of(format is Urlsafe, d2) ==> d2 == d@,
        forall|d: Seq<u8>| trim_spec(s@) == #[trigger] b64_of(format is Urlsafe, d) ==> r is Ok,
        r matches Err(e) ==> e == Base64Error::InvalidEncoding,
{
    let trimmed = trim_str(s);
    let urlsafe = match format {
        Base64Format::Standard => false,
        Base64Format::Urlsafe => true,
    };
    match b64_decode(trimmed, urlsafe) {
        Ok(d) => Ok(d),
        Err(_) => Err(Base64Error::InvalidEncoding),
    }
}

} // verus!
