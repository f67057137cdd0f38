//! Symmetric authenticated encryption: a 32-byte key, the backend's cipher
//! with a fixed all-zero nonce, and base64 text transport of the ciphertext.

use vstd::prelude::*;
use vstd::utf8::encode_utf8;
use vstd::utf8::valid_utf8;

use crate::process::b64::b64_decode;
use crate::process::b64::b64_encode;
use crate::process::b64::b64_of;
use chacha20poly1305::aead::Aead;
use chacha20poly1305::KeyInit;

verus! {

/// Errors of the symmetric-encryption commands.
#[derive(Debug, Clone, Copy, PartialEq, Eq, Structural)]
pub enum ChaChaError {
    /// The key bytes do not have the cipher's key length.
    KeyFormat,
    /// The backend rejected the encryption.
    Encrypt,
    /// The ciphertext is inauthentic or malformed.
    Decrypt,
    /// The textual ciphertext is not a canonical base64 encoding.
    InvalidEncoding,
    /// The decrypted bytes are not valid UTF-8 text.
    InvalidUtf8,
}

/// The ciphertext-with-tag that the cipher produces for a key and plaintext
/// under the fixed all-zero nonce: a deterministic function of both.
pub uninterp spec fn chacha_sealed(key: Seq<u8>, plain: Seq<u8>) -> Seq<u8>;

/// Relies on chacha20poly1305's Aead::encrypt with the all-zero nonce: a
/// deterministic ciphertext, one tag length longer than the plaintext.
#[verifier::external_body]
fn chacha_encrypt(key: &[u8], plain: &[u8]) -> (r: Result<Vec<u8>, ChaChaError>)
    requires
        key@.len() == 32,
    ensures
        r matches Ok(c) ==> c@ == chacha_sealed(key@, plain@) && c@.len() == plain@.len() + 16,
        r matches Err(e) ==> e == ChaChaError::Encrypt,
{
    let cipher = chacha20poly1305::ChaCha20Poly1305::new_from_slice(key).unwrap();
    let nonce = chacha20poly1305::Nonce::default();
    cipher.encrypt(&nonce, plain).map_err(|_| ChaChaError::Encrypt)
}

/// Relies on Aead::decrypt with the all-zero nonce: it accepts exactly the
/// ciphertexts the cipher produces under this key and nonce, and returns the
/// plaintext they were produced from.
#[verifier::external_body]
fn chacha_decrypt(key: &[u8], ciphertext: &[u8]) -> (r: Result<Vec<u8>, ChaChaError>)
    requires
        key@.len() == 32,
    ensures
        r matches Ok(p) ==> ciphertext@ == chacha_sealed(key@, p@),
        r matches Ok(p) ==> forall|p2: Seq<u8>|
            ciphertext@ == #[trigger] chacha_sealed(key@, p2) ==> p2 == p@,
        forall|p: Seq<u8>| ciphertext@ == #[trigger] chacha_sealed(key@, p) ==> r is Ok,
        r matches Err(e) ==> e == ChaChaError::Decrypt,
{
    let cipher = chacha20poly1305::ChaCha20Poly1305::new_from_slice(key).unwrap();
    let nonce = chacha20poly1305::Nonce::default();
    cipher.decrypt(&nonce, ciphertext).map_err(|_| ChaChaError::Decrypt)
}

/// Relies on String::from_utf8: the string whose UTF-8 image is exactly the
/// input; it succeeds exactly on valid UTF-8.
#[verifier::external_body]
fn string_from_utf8(bytes: Vec<u8>) -> (r: Result<String, ChaChaError>)
    ensures
        r is Ok <==> valid_utf8(bytes@),
        r matches Ok(s) ==> encode_utf8(s@) == bytes@,
        r matches Err(e) ==> e == ChaChaError::InvalidUtf8,
{
    String::from_utf8(bytes).map_err(|_| ChaChaError::InvalidUtf8)
}

/// The symmetric-encryption variant: one 32-byte key for encrypting and
/// decrypting alike.
pub struct ChaCha20Poly1305Algorithm {
    key: Vec<u8>,
}

impl View for ChaCha20Poly1305Algorithm {
    type V = Seq<u8>;

    closed spec fn view(&self) -> Seq<u8> {
        self.key@
    }
}

impl ChaCha20Poly1305Algorithm {
    /// A well-formed instance holds exactly one key length of bytes.
    pub open spec fn wf(&self) -> bool {
        self@.len() == 32
    }

    pub fn new(key: [u8; 32]) -> (s: Self)
        ensures
            s@ == key@,
            s.wf(),
    {
        ChaCha20Poly1305Algorithm { key: vstd::slice::slice_to_vec(key.as_slice()) }
    }

    /// Accepts exactly one key length of bytes, as the cipher itself does.
    pub fn try_new(key: &[u8]) -> (r: Result<Self, ChaChaError>)
        ensures
            r is Ok <==> key@.len() == 32,
            r matches Ok(s) ==> s@ == key@ && s.wf(),
            r matches Err(e) ==> e == ChaChaError::KeyFormat,
    {
        if key.len() == 32 {
            Ok(ChaCha20Poly1305Algorithm { key: vstd::slice::slice_to_vec(key) })
        } else {
            Err(ChaChaError::KeyFormat)
        }
    }

    /// Encrypt the input under this key and the fixed nonce.
    pub fn encrypt(&self, plain: &[u8]) -> (r: Result<Vec<u8>, ChaChaError>)
        requires
            self.wf(),
        ensures
            r matches Ok(c) ==> c@ == chacha_sealed(self@, plain@),
            r matches Ok(c) ==> c@.len() == plain@.len() + 16,
            r matches Err(e) ==> e == ChaChaError::Encrypt,
    {
        chacha_encrypt(self.key.as_slice(), plain)
    }

    /// Decrypt a ciphertext under this key and the fixed nonce: succeeds
    /// exactly on ciphertexts this key produces, and inverts them.
    pub fn decrypt(&self, ciphertext: &[u8]) -> (r: Result<Vec<u8>, ChaChaError>)
        requires
            self.wf(),
        ensures
            r matches Ok(p) ==> ciphertext@ == chacha_sealed(self@, p@),
            r matches Ok(p) ==> forall|p2: Seq<u8>|
                ciphertext@ == #[trigger] chacha_sealed(self@, p2) ==> p2 == p@,
            forall|p: Seq<u8>| ciphertext@ == #[trigger] chacha_sealed(self@, p) ==> r is Ok,
            r matches Err(e) ==> e == ChaChaError::Decrypt,
    {
        chacha_decrypt(self.key.as_slice(), ciphertext)
    }
}

/// Encrypt the input under the given key bytes and return the ciphertext as
/// URL-safe unpadded base64 text.
pub fn process_text_encrypt(data: &[u8], key: &[u8]) -> (r: Result<String, ChaChaError>)
    ensures
        key@.len() != 32 ==> (r matches Err(e) && e == ChaChaError::KeyFormat),
        key@.len() == 32 ==> (r matches Err(e) ==> e == ChaChaError::Encrypt),
        r matches Ok(t) ==> t@ == b64_of(true, chacha_sealed(key@, data@)),
        r is Ok ==> chacha_sealed(key@, data@).len() == data@.len() + 16,
        r matches Err(e) ==> e == ChaChaError::KeyFormat || e == ChaChaError::Encrypt,
{
    let cipher = ChaCha20Poly1305Algorithm::try_new(key)?;
    let sealed = cipher.encrypt(data)?;
    Ok(b64_encode(sealed.as_slice(), true))
}

/// Decode URL-safe unpadded base64 text, decrypt it under the given key
/// bytes, and return the plaintext as a string. It succeeds on exactly the
/// text that encrypting a valid-UTF-8 plaintext under the same key yields,
/// and returns that plaintext.
pub fn process_text_decrypt(data: &str, key: &[u8]) -> (r: Result<String, ChaChaError>)
    ensures
        key@.len() != 32 ==> (r matches Err(e) && e == ChaChaError::KeyFormat),
        r matches Ok(s) ==> exists|p: Seq<u8>|
            data@ == b64_of(true, #[trigger] chacha_sealed(key@, p)) && valid_utf8(p)
                && encode_utf8(s@) == p,
        r matches Ok(s) ==> forall|p: Seq<u8>|
            data@ == b64_of(true, #[trigger] chacha_sealed(key@, p)) ==> encode_utf8(s@) == p,
        forall|p: Seq<u8>|
            (key@.len() == 32 && data@ == b64_of(true, #[trigger] chacha_sealed(key@, p))
                && valid_utf8(p)) ==> r is Ok,
        r matches Err(e) ==> e == ChaChaError::KeyFormat || e == ChaChaError::InvalidEncoding || e
            == ChaChaError::Decrypt || e == ChaChaError::InvalidUtf8,
{
    let cipher = ChaCha20Poly1305Algorithm::try_new(key)?;
    let ciphertext = match b64_decode(data, true) {
        Ok(c) => c,
        Err(_) => {
            return Err(ChaChaError::InvalidEncoding);
        },
    };
    let plain = cipher.decrypt(ciphertext.as_slice())?;
    string_from_utf8(plain)
}

} // verus!
