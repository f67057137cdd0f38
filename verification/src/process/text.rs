//! The message-authentication core: signing, verifying and key generation for
//! a keyed BLAKE3 hash and for Ed25519 signatures, behind one dispatch
//! surface selected by `TextSignFormat`.

use vstd::prelude::*;

use vstd::string::StringExecFns;

use crate::cli::text::TextSignFormat;
use crate::process::b64::b64_decode;
use crate::process::b64::b64_encode;
use crate::process::b64::b64_of;
use ed25519_dalek::Signer;
use ed25519_dalek::Verifier;

verus! {

/// Key length, in bytes, shared by both algorithms.
pub const KEY_LENGTH: usize = 32;

/// Length, in bytes, of a keyed BLAKE3 tag.
pub const BLAKE3_SIG_LENGTH: usize = 32;

/// Length, in bytes, of an Ed25519 signature.
pub const ED25519_SIG_LENGTH: usize = 64;

/// Errors of the message-authentication core. A failed verification is not an
/// error: it is a normally computed `false`.
#[derive(Debug, Clone, Copy, PartialEq, Eq, Structural)]
pub enum TextError {
    /// Reading the key bytes from their source failed. Raised by callers that
    /// perform the read; the core itself only receives byte buffers.
    KeyLoadError,
    /// The key bytes are present but structurally invalid for the selected
    /// algorithm: wrong length, or not a valid curve point.
    KeyFormatError,
    /// The supplied signature cannot be parsed into the algorithm's
    /// fixed-length representation.
    VerificationInputError,
}

/// Tag of a keyed BLAKE3 hash: a deterministic function of key and input.
pub uninterp spec fn blake3_keyed_digest(key: Seq<u8>, data: Seq<u8>) -> Seq<u8>;

/// Ed25519 signature bytes over `data` under the signing key with seed
/// `seed`: the scheme is deterministic, so this is a function of its
/// arguments alone.
pub uninterp spec fn ed25519_sig_of(seed: Seq<u8>, data: Seq<u8>) -> Seq<u8>;

/// Bytes of the Ed25519 verifying key derived from the signing key with seed
/// `seed`.
pub uninterp spec fn ed25519_pubkey_of(seed: Seq<u8>) -> Seq<u8>;

/// Whether 32 key bytes decode to a valid Ed25519 curve point.
pub uninterp spec fn ed25519_point_valid(key: Seq<u8>) -> bool;

/// Whether an Ed25519 signature is accepted for `data` under the verifying
/// key `key`.
pub uninterp spec fn ed25519_verifies(key: Seq<u8>, data: Seq<u8>, sig: Seq<u8>) -> bool;

/// Relies on blake3::keyed_hash: a deterministic 32-byte keyed digest of the
/// full input buffer.
#[verifier::external_body]
fn blake3_keyed_hash(key: &[u8], data: &[u8]) -> (r: Vec<u8>)
    requires
        key@.len() == KEY_LENGTH,
    ensures
        r@ == blake3_keyed_digest(key@, data@),
        r@.len() == BLAKE3_SIG_LENGTH,
{
    let key_bytes: &[u8; 32] = key.try_into().unwrap();
    blake3::keyed_hash(key_bytes, data).as_bytes().to_vec()
}

/// Relies on ed25519_dalek::SigningKey::sign (RFC 8032): a deterministic
/// 64-byte signature that the verifying key derived from the same seed
/// accepts for the same data.
#[verifier::external_body]
fn ed25519_sign_bytes(seed: &[u8], data: &[u8]) -> (r: Vec<u8>)
    requires
        seed@.len() == KEY_LENGTH,
    ensures
        r@ == ed25519_sig_of(seed@, data@),
        r@.len() == ED25519_SIG_LENGTH,
        ed25519_verifies(ed25519_pubkey_of(seed@), data@, r@),
{
    let seed_bytes: &[u8; 32] = seed.try_into().unwrap();
    let key = ed25519_dalek::SigningKey::from_bytes(seed_bytes);
    key.sign(data).to_bytes().to_vec()
}

/// Relies on ed25519_dalek::SigningKey::verifying_key: the public key point
/// derived from the seed, always a valid 32-byte curve point.
#[verifier::external_body]
fn ed25519_derive_pubkey(seed: &[u8]) -> (r: Vec<u8>)
    requires
        seed@.len() == KEY_LENGTH,
    ensures
        r@ == ed25519_pubkey_of(seed@),
        r@.len() == KEY_LENGTH,
        ed25519_point_valid(r@),
{
    let seed_bytes: &[u8; 32] = seed.try_into().unwrap();
    let key = ed25519_dalek::SigningKey::from_bytes(seed_bytes);
    key.verifying_key().to_bytes().to_vec()
}

/// Relies on ed25519_dalek::VerifyingKey::from_bytes: whether the 32 key
/// bytes decode to a valid curve point.
#[verifier::external_body]
fn ed25519_check_pubkey(key: &[u8]) -> (r: bool)
    requires
        key@.len() == KEY_LENGTH,
    ensures
        r == ed25519_point_valid(key@),
{
    let key_bytes: &[u8; 32] = key.try_into().unwrap();
    ed25519_dalek::VerifyingKey::from_bytes(key_bytes).is_ok()
}

/// Relies on ed25519_dalek::VerifyingKey::verify: a deterministic
/// accept/reject verdict for a 64-byte signature.
#[verifier::external_body]
fn ed25519_verify_bytes(key: &[u8], data: &[u8], sig: &[u8]) -> (r: bool)
    requires
        key@.len() == KEY_LENGTH,
        ed25519_point_valid(key@),
        sig@.len() == ED25519_SIG_LENGTH,
    ensures
        r == ed25519_verifies(key@, data@, sig@),
{
    let key_bytes: &[u8; 32] = key.try_into().unwrap();
    let vk = ed25519_dalek::VerifyingKey::from_bytes(key_bytes).unwrap();
    let sig_bytes: &[u8; 64] = sig.try_into().unwrap();
    let signature = ed25519_dalek::Signature::from_bytes(sig_bytes);
    vk.verify(data, &signature).is_ok()
}

/// Relies on rand::rngs::OsRng (RngCore::fill_bytes): `n` bytes drawn from
/// the operating system's entropy source.
#[verifier::external_body]
fn random_bytes(n: usize) -> (r: Vec<u8>)
    ensures
        r@.len() == n,
{
    let mut buf = vec![0u8; n];
    rand::RngCore::fill_bytes(&mut rand::rngs::OsRng, buf.as_mut_slice());
    buf
}

/// Byte-for-byte comparison of two buffers.
fn bytes_eq(a: &[u8], b: &[u8]) -> (r: bool)
    ensures
        r == (a@ == b@),
{
    if a.len() != b.len() {
        return false;
    }
    let mut i: usize = 0;
    while i < a.len()
        invariant
            i <= a@.len(),
            a@.len() == b@.len(),
            forall|j: int| 0 <= j < i ==> a@[j] == b@[j],
        decreases a@.len() - i,
    {
        if a[i] != b[i] {
            return false;
        }
        i = i + 1;
    }
    proof {
        assert(a@ =~= b@);
    }
    true
}

/// What signing computes for a keyed BLAKE3 key and input: the keyed digest
/// itself is the tag.
pub open spec fn blake3_sign_spec(key: Seq<u8>, data: Seq<u8>) -> Seq<u8> {
    blake3_keyed_digest(key, data)
}

/// What verifying computes for a keyed BLAKE3 key, input and candidate tag:
/// recompute the digest and compare byte for byte.
pub open spec fn blake3_verify_spec(key: Seq<u8>, data: Seq<u8>, sig: Seq<u8>) -> bool {
    sig == blake3_keyed_digest(key, data)
}

/// Round trip of the keyed hash: a tag produced over a key and data always
/// passes verification over the same key and data.
pub proof fn lemma_blake3_round_trip(key: Seq<u8>, data: Seq<u8>)
    ensures
        blake3_verify_spec(key, data, blake3_sign_spec(key, data)),
{
}

/// The keyed BLAKE3 variant: one 32-byte key used interchangeably for
/// signing and verifying.
pub struct Blake3 {
    key: Vec<u8>,
}

impl View for Blake3 {
    type V = Seq<u8>;

    closed spec fn view(&self) -> Seq<u8> {
        self.key@
    }
}

impl Blake3 {
    /// A well-formed instance holds exactly one key length of bytes.
    pub open spec fn wf(&self) -> bool {
        self@.len() == KEY_LENGTH
    }

    pub fn new(key: [u8; 32]) -> (s: Self)
        ensures
            s@ == key@,
            s.wf(),
    {
        Blake3 { key: vstd::slice::slice_to_vec(key.as_slice()) }
    }

    /// Accepts exactly one key length of bytes; anything shorter or longer is
    /// rejected rather than silently truncated.
    pub fn try_new(key: &[u8]) -> (r: Result<Self, TextError>)
        ensures
            r is Ok <==> key@.len() == KEY_LENGTH,
            r matches Ok(s) ==> s@ == key@ && s.wf(),
            r matches Err(e) ==> e == TextError::KeyFormatError,
    {
        if key.len() == KEY_LENGTH {
            Ok(Blake3 { key: vstd::slice::slice_to_vec(key) })
        } else {
            Err(TextError::KeyFormatError)
        }
    }

    /// Sign: the tag is the keyed digest of the full input.
    pub fn sign(&self, data: &[u8]) -> (sig: Vec<u8>)
        requires
            self.wf(),
        ensures
            sig@ == blake3_sign_spec(self@, data@),
            sig@.len() == BLAKE3_SIG_LENGTH,
    {
        blake3_keyed_hash(self.key.as_slice(), data)
    }

    /// Verify: recompute the tag and compare byte for byte. A mismatch is a
    /// normal `false`, never an error.
    pub fn verify(&self, data: &[u8], sig: &[u8]) -> (r: bool)
        requires
            self.wf(),
        ensures
            r == blake3_verify_spec(self@, data@, sig@),
    {
        let hash = blake3_keyed_hash(self.key.as_slice(), data);
        bytes_eq(hash.as_slice(), sig)
    }

    /// Generate one fresh symmetric key: exactly one buffer of one key
    /// length, drawn uniformly from the system's entropy source.
    pub fn generate() -> (r: Vec<Vec<u8>>)
        ensures
            r@.len() == 1,
            r@[0]@.len() == KEY_LENGTH,
    {
        let key = random_bytes(KEY_LENGTH);
        let mut out: Vec<Vec<u8>> = Vec::new();
        out.push(key);
        out
    }
}

/// The Ed25519 signing variant: holds the 32-byte seed of the signing key.
/// The capability is deliberately separate from `Ed25519Verifier`, so a
/// verifier can never be used to sign.
pub struct Ed25519Signer {
    key: Vec<u8>,
}

impl View for Ed25519Signer {
    type V = Seq<u8>;

    closed spec fn view(&self) -> Seq<u8> {
        self.key@
    }
}

impl Ed25519Signer {
    /// A well-formed instance holds exactly one key length of seed bytes;
    /// every such seed is a valid signing key.
    pub open spec fn wf(&self) -> bool {
        self@.len() == KEY_LENGTH
    }

    pub fn new(key: Vec<u8>) -> (s: Self)
        requires
            key@.len() == KEY_LENGTH,
        ensures
            s@ == key@,
            s.wf(),
    {
        Ed25519Signer { key }
    }

    /// Accepts exactly one key length of seed bytes; anything shorter or
    /// longer is rejected rather than silently truncated.
    pub fn try_new(key: &[u8]) -> (r: Result<Self, TextError>)
        ensures
            r is Ok <==> key@.len() == KEY_LENGTH,
            r matches Ok(s) ==> s@ == key@ && s.wf(),
            r matches Err(e) ==> e == TextError::KeyFormatError,
    {
        if key.len() == KEY_LENGTH {
            Ok(Self::new(vstd::slice::slice_to_vec(key)))
        } else {
            Err(TextError::KeyFormatError)
        }
    }

    /// Sign: a deterministic 64-byte Ed25519 signature over the full input.
    /// The signature always verifies under the verifying key derived from
    /// this signer's seed.
    pub fn sign(&self, data: &[u8]) -> (sig: Vec<u8>)
        requires
            self.wf(),
        ensures
            sig@ == ed25519_sig_of(self@, data@),
            sig@.len() == ED25519_SIG_LENGTH,
            ed25519_verifies(ed25519_pubkey_of(self@), data@, sig@),
    {
        ed25519_sign_bytes(self.key.as_slice(), data)
    }

    /// Generate a fresh key pair: the signing-key seed first, then the
    /// verifying key derived from it, each one key length of bytes.
    pub fn generate() -> (r: Vec<Vec<u8>>)
        ensures
            r@.len() == 2,
            r@[0]@.len() == KEY_LENGTH,
            r@[1]@ == ed25519_pubkey_of(r@[0]@),
            r@[1]@.len() == KEY_LENGTH,
            ed25519_point_valid(r@[1]@),
    {
        let seed = random_bytes(KEY_LENGTH);
        let pubkey = ed25519_derive_pubkey(seed.as_slice());
        let mut out: Vec<Vec<u8>> = Vec::new();
        out.push(seed);
        out.push(pubkey);
        out
    }
}

/// The Ed25519 verifying variant: holds the 32 bytes of a validated public
/// key point.
pub struct Ed25519Verifier {
    key: Vec<u8>,
}

impl View for Ed25519Verifier {
    type V = Seq<u8>;

    closed spec fn view(&self) -> Seq<u8> {
        self.key@
    }
}

impl Ed25519Verifier {
    /// A well-formed instance holds exactly one key length of bytes that
    /// decode to a valid curve point.
    pub open spec fn wf(&self) -> bool {
        self@.len() == KEY_LENGTH && ed25519_point_valid(self@)
    }

    pub fn new(key: Vec<u8>) -> (s: Self)
        requires
            key@.len() == KEY_LENGTH,
            ed25519_point_valid(key@),
        ensures
            s@ == key@,
            s.wf(),
    {
        Ed25519Verifier { key }
    }

    /// Accepts exactly one key length of bytes that decode to a valid curve
    /// point; anything else fails at load time, not at verify time.
    pub fn try_new(key: &[u8]) -> (r: Result<Self, TextError>)
        ensures
            r is Ok <==> key@.len() == KEY_LENGTH && ed25519_point_valid(key@),
            r matches Ok(s) ==> s@ == key@ && s.wf(),
            r matches Err(e) ==> e == TextError::KeyFormatError,
    {
        if key.len() != KEY_LENGTH {
            return Err(TextError::KeyFormatError);
        }
        if !ed25519_check_pubkey(key) {
            return Err(TextError::KeyFormatError);
        }
        Ok(Self::new(vstd::slice::slice_to_vec(key)))
    }

    /// Verify: a signature of any length other than the fixed one cannot even
    /// be parsed and is a `VerificationInputError`; otherwise the result is
    /// the cryptographic verdict, with no further reason given.
    pub fn verify(&self, data: &[u8], sig: &[u8]) -> (r: Result<bool, TextError>)
        requires
            self.wf(),
        ensures
            r is Ok <==> sig@.len() == ED25519_SIG_LENGTH,
            r matches Ok(b) ==> b == ed25519_verifies(self@, data@, sig@),
            r matches Err(e) ==> e == TextError::VerificationInputError,
    {
        if sig.len() != ED25519_SIG_LENGTH {
            return Err(TextError::VerificationInputError);
        }
        Ok(ed25519_verify_bytes(self.key.as_slice(), data, sig))
    }
}

/// What the dispatcher's sign returns for each algorithm, once the key bytes
/// have been accepted.
pub open spec fn text_sign_spec(data: Seq<u8>, key: Seq<u8>, format: TextSignFormat) -> Seq<u8> {
    match format {
        TextSignFormat::Blake3 => blake3_sign_spec(key, data),
        TextSignFormat::Ed25519 => ed25519_sig_of(key, data),
    }
}

/// The fixed signature length of each algorithm, in bytes.
pub open spec fn sig_length_spec(format: TextSignFormat) -> int {
    match format {
        TextSignFormat::Blake3 => BLAKE3_SIG_LENGTH as int,
        TextSignFormat::Ed25519 => ED25519_SIG_LENGTH as int,
    }
}

/// When the dispatcher accepts the key bytes for an algorithm.
pub open spec fn text_key_ok(key: Seq<u8>, format: TextSignFormat) -> bool {
    match format {
        TextSignFormat::Blake3 => key.len() == KEY_LENGTH,
        TextSignFormat::Ed25519 => key.len() == KEY_LENGTH,
    }
}

/// Dispatching sign: load the key for the selected algorithm and return the
/// raw signature bytes. Succeeds exactly when the key bytes are acceptable.
pub fn text_sign(data: &[u8], key: &[u8], format: TextSignFormat) -> (r: Result<
    Vec<u8>,
    TextError,
>)
    ensures
        r is Ok <==> text_key_ok(key@, format),
        r matches Ok(sig) ==> sig@ == text_sign_spec(data@, key@, format),
        r matches Ok(sig) ==> sig@.len() == sig_length_spec(format),
        r matches Ok(sig) ==> format == TextSignFormat::Ed25519 ==> ed25519_verifies(
            ed25519_pubkey_of(key@),
            data@,
            sig@,
        ),
        r matches Err(e) ==> e == TextError::KeyFormatError,
{
    match format {
        TextSignFormat::Blake3 => {
            let signer = Blake3::try_new(key)?;
            Ok(signer.sign(data))
        },
        TextSignFormat::Ed25519 => {
            let signer = Ed25519Signer::try_new(key)?;
            Ok(signer.sign(data))
        },
    }
}

/// When the dispatcher's verify accepts key and signature bytes, and what it
/// then answers.
pub open spec fn text_verify_spec(
    data: Seq<u8>,
    key: Seq<u8>,
    format: TextSignFormat,
    sig: Seq<u8>,
) -> bool {
    match format {
        TextSignFormat::Blake3 => blake3_verify_spec(key, data, sig),
        TextSignFormat::Ed25519 => ed25519_verifies(key, data, sig),
    }
}

/// Dispatching verify: load the key for the selected algorithm and return the
/// boolean verdict. For the keyed hash a signature of the wrong length is an
/// ordinary mismatch (`false`); for Ed25519 it cannot be parsed and is a
/// `VerificationInputError`, distinct from a `false` verdict.
pub fn text_verify(data: &[u8], key: &[u8], format: TextSignFormat, sig: &[u8]) -> (r: Result<
    bool,
    TextError,
>)
    ensures
        match format {
            TextSignFormat::Blake3 => {
                &&& r is Ok <==> key@.len() == KEY_LENGTH
                &&& r matches Ok(b) ==> b == text_verify_spec(data@, key@, format, sig@)
                &&& r matches Err(e) ==> e == TextError::KeyFormatError
            },
            TextSignFormat::Ed25519 => {
                &&& r is Ok <==> key@.len() == KEY_LENGTH && ed25519_point_valid(key@)
                    && sig@.len() == ED25519_SIG_LENGTH
                &&& r matches Ok(b) ==> b == text_verify_spec(data@, key@, format, sig@)
                &&& r matches Err(e) ==> (key@.len() == KEY_LENGTH && ed25519_point_valid(key@))
                    ==> e == TextError::VerificationInputError
                &&& r matches Err(e) ==> !(key@.len() == KEY_LENGTH && ed25519_point_valid(key@))
                    ==> e == TextError::KeyFormatError
            },
        },
{
    match format {
        TextSignFormat::Blake3 => {
            let verifier = Blake3::try_new(key)?;
            Ok(verifier.verify(data, sig))
        },
        TextSignFormat::Ed25519 => {
            let verifier = Ed25519Verifier::try_new(key)?;
            verifier.verify(data, sig)
        },
    }
}

/// Generate fresh key material for the selected algorithm: one symmetric key
/// buffer for the keyed hash, or a signing-key seed followed by its verifying
/// key for Ed25519.
pub fn process_generator(format: TextSignFormat) -> (r: Result<Vec<Vec<u8>>, TextError>)
    ensures
        r is Ok,
        r matches Ok(v) ==> match format {
            TextSignFormat::Blake3 => v@.len() == 1 && v@[0]@.len() == KEY_LENGTH,
            TextSignFormat::Ed25519 => v@.len() == 2 && v@[0]@.len() == KEY_LENGTH && v@[1]@
                == ed25519_pubkey_of(v@[0]@) && v@[1]@.len() == KEY_LENGTH
                && ed25519_point_valid(v@[1]@),
        },
{
    match format {
        TextSignFormat::Blake3 => Ok(Blake3::generate()),
        TextSignFormat::Ed25519 => Ok(Ed25519Signer::generate()),
    }
}

/// Sign and return the textual signature: the raw signature bytes of the
/// selected algorithm, encoded as URL-safe unpadded base64.
pub fn process_text_sign(data: &[u8], key: &[u8], format: TextSignFormat) -> (r: Result<
    String,
    TextError,
>)
    ensures
        r is Ok <==> text_key_ok(key@, format),
        r matches Ok(sig) ==> sig@ == b64_of(true, text_sign_spec(data@, key@, format)),
        r is Ok ==> text_sign_spec(data@, key@, format).len() == sig_length_spec(format),
        r is Ok && format == TextSignFormat::Ed25519 ==> ed25519_verifies(
            ed25519_pubkey_of(key@),
            data@,
            text_sign_spec(data@, key@, format),
        ),
        r matches Err(e) ==> e == TextError::KeyFormatError,
{
    let raw = text_sign(data, key, format)?;
    Ok(b64_encode(raw.as_slice(), true))
}

/// Verify a textual signature: decode it from URL-safe unpadded base64, run
/// the selected algorithm's verify, and report the verdict as `Verified` or
/// `Not verified`. Text that is no encoding at all is a
/// `VerificationInputError`, distinct from a `Not verified` verdict.
pub fn process_text_verify(data: &[u8], key: &[u8], format: TextSignFormat, sig: &str) -> (r:
    Result<String, TextError>)
    ensures
        r matches Ok(v) ==> (v@ == "Verified"@ || v@ == "Not verified"@),
        r matches Ok(v) ==> (v@ == "Verified"@ <==> exists|d: Seq<u8>|
            sig@ == #[trigger] b64_of(true, d) && text_verify_spec(data@, key@, format, d)),
        forall|d: Seq<u8>|
            sig@ == #[trigger] b64_of(true, d) ==> match format {
                TextSignFormat::Blake3 => r is Ok <==> key@.len() == KEY_LENGTH,
                TextSignFormat::Ed25519 => r is Ok <==> key@.len() == KEY_LENGTH
                    && ed25519_point_valid(key@) && d.len() == ED25519_SIG_LENGTH,
            },
        (forall|d: Seq<u8>| sig@ != #[trigger] b64_of(true, d)) ==> (r matches Err(e) && e
            == TextError::VerificationInputError),
{
    proof {
        reveal_strlit("Verified");
        reveal_strlit("Not verified");
        assert("Verified"@.len() == 8);
        assert("Not verified"@.len() == 12);
    }
    let decoded = match b64_decode(sig, true) {
        Ok(d) => d,
        Err(_) => {
            return Err(TextError::VerificationInputError);
        },
    };
    let verdict = text_verify(data, key, format, decoded.as_slice())?;
    if verdict {
        Ok(String::from_str("Verified"))
    } else {
        Ok(String::from_str("Not verified"))
    }
}

} // verus!
