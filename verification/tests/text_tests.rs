use ed25519_dalek::Verifier;
use rcli::{
    process_generator, process_text_sign, process_text_verify, text_sign, text_verify, Blake3,
    Ed25519Signer, Ed25519Verifier, TextError, TextSignFormat,
};

const KEY: &[u8; 32] = b"01234567890123456789012345678901";
const DATA: &[u8] = b"hello,world!";

#[test]
fn test_blake3_sign_verify() {
    let blake3 = Blake3::try_new(KEY).unwrap();
    let sig = blake3.sign(DATA);
    assert!(blake3.verify(DATA, &sig));
}

#[test]
fn test_ed25519_sign_verify() {
    let keys = process_generator(TextSignFormat::Ed25519).unwrap();
    let signer = Ed25519Signer::try_new(&keys[0]).unwrap();
    let sig = signer.sign(DATA);
    let verifier = Ed25519Verifier::try_new(&keys[1]).unwrap();
    assert!(verifier.verify(DATA, &sig).unwrap());
}

#[test]
fn test_blake3_matches_backend() {
    let blake3 = Blake3::new(*KEY);
    let sig = blake3.sign(DATA);
    let expected = blake3::keyed_hash(KEY, DATA);
    assert_eq!(sig.as_slice(), expected.as_bytes());
}

#[test]
fn test_ed25519_matches_backend() {
    let signer = Ed25519Signer::try_new(KEY).unwrap();
    let sig = signer.sign(DATA);
    let sk = ed25519_dalek::SigningKey::from_bytes(KEY);
    let parsed = ed25519_dalek::Signature::from_slice(&sig).unwrap();
    assert!(sk.verifying_key().verify(DATA, &parsed).is_ok());
}

#[test]
fn test_blake3_single_bit_flips() {
    let blake3 = Blake3::new(*KEY);
    let sig = blake3.sign(DATA);
    for i in 0..DATA.len() {
        for bit in 0..8 {
            let mut data = DATA.to_vec();
            data[i] ^= 1 << bit;
            assert!(!blake3.verify(&data, &sig));
        }
    }
    for i in 0..KEY.len() {
        for bit in 0..8 {
            let mut key = *KEY;
            key[i] ^= 1 << bit;
            let other = Blake3::new(key);
            assert!(!other.verify(DATA, &sig));
        }
    }
}

#[test]
fn test_ed25519_deterministic() {
    let signer = Ed25519Signer::try_new(KEY).unwrap();
    let first = signer.sign(DATA);
    let second = signer.sign(DATA);
    assert_eq!(first, second);
}

#[test]
fn test_ed25519_malformed_signature_is_error() {
    let keys = process_generator(TextSignFormat::Ed25519).unwrap();
    let verifier = Ed25519Verifier::try_new(&keys[1]).unwrap();
    let short = vec![0u8; 63];
    assert_eq!(
        verifier.verify(DATA, &short),
        Err(TextError::VerificationInputError)
    );
    let long = vec![0u8; 65];
    assert_eq!(
        verifier.verify(DATA, &long),
        Err(TextError::VerificationInputError)
    );
    let exact = vec![0u8; 64];
    assert_eq!(verifier.verify(DATA, &exact), Ok(false));
}

#[test]
fn test_short_key_is_format_error() {
    let short = b"0123456789012345678901234567890";
    assert!(matches!(
        Blake3::try_new(short),
        Err(TextError::KeyFormatError)
    ));
    assert!(matches!(
        Ed25519Signer::try_new(short),
        Err(TextError::KeyFormatError)
    ));
    assert!(matches!(
        Ed25519Verifier::try_new(short),
        Err(TextError::KeyFormatError)
    ));
    let long = b"012345678901234567890123456789012";
    assert!(matches!(
        Blake3::try_new(long),
        Err(TextError::KeyFormatError)
    ));
    assert!(matches!(
        Ed25519Signer::try_new(long),
        Err(TextError::KeyFormatError)
    ));
    assert!(matches!(
        Ed25519Verifier::try_new(long),
        Err(TextError::KeyFormatError)
    ));
}

#[test]
fn test_generate_key_shapes() {
    let one = process_generator(TextSignFormat::Blake3).unwrap();
    assert_eq!(one.len(), 1);
    assert_eq!(one[0].len(), 32);
    let two = process_generator(TextSignFormat::Ed25519).unwrap();
    assert_eq!(two.len(), 2);
    assert_eq!(two[0].len(), 32);
    assert_eq!(two[1].len(), 32);
    let again = process_generator(TextSignFormat::Blake3).unwrap();
    assert_ne!(one[0], again[0]);
    let pair_again = process_generator(TextSignFormat::Ed25519).unwrap();
    assert_ne!(two[0], pair_again[0]);
}

#[test]
fn test_blake3_end_to_end() {
    let blake3 = Blake3::new(*KEY);
    let sig = blake3.sign(DATA);
    assert!(blake3.verify(DATA, &sig));
    for i in 0..DATA.len() {
        let mut data = DATA.to_vec();
        data[i] = data[i].wrapping_add(1);
        assert!(!blake3.verify(&data, &sig));
    }
}

#[test]
fn test_ed25519_end_to_end() {
    let keys = process_generator(TextSignFormat::Ed25519).unwrap();
    let signer = Ed25519Signer::try_new(&keys[0]).unwrap();
    let sig = signer.sign(DATA);
    let verifier = Ed25519Verifier::try_new(&keys[1]).unwrap();
    assert!(verifier.verify(DATA, &sig).unwrap());
    let other_keys = process_generator(TextSignFormat::Ed25519).unwrap();
    let other_verifier = Ed25519Verifier::try_new(&other_keys[1]).unwrap();
    assert!(!other_verifier.verify(DATA, &sig).unwrap());
}

#[test]
fn test_dispatch_sign_verify() {
    for format in [TextSignFormat::Blake3, TextSignFormat::Ed25519] {
        let key: &[u8] = match format {
            TextSignFormat::Blake3 => KEY,
            TextSignFormat::Ed25519 => KEY,
        };
        let sig = text_sign(DATA, key, format).unwrap();
        let verify_key = match format {
            TextSignFormat::Blake3 => key.to_vec(),
            TextSignFormat::Ed25519 => {
                let sk = ed25519_dalek::SigningKey::from_bytes(KEY);
                sk.verifying_key().to_bytes().to_vec()
            }
        };
        assert!(text_verify(DATA, &verify_key, format, &sig).unwrap());
        assert!(matches!(
            text_sign(DATA, &key[..16], format),
            Err(TextError::KeyFormatError)
        ));
    }
}

#[test]
fn test_textual_sign_verify_round_trip() {
    let sig = process_text_sign(DATA, KEY, TextSignFormat::Blake3).unwrap();
    let verdict = process_text_verify(DATA, KEY, TextSignFormat::Blake3, &sig).unwrap();
    assert_eq!(verdict, "Verified");
    let other = process_text_verify(b"other data", KEY, TextSignFormat::Blake3, &sig).unwrap();
    assert_eq!(other, "Not verified");
}

#[test]
fn test_textual_verify_rejects_bad_encoding() {
    assert_eq!(
        process_text_verify(DATA, KEY, TextSignFormat::Blake3, "!!!not base64!!!"),
        Err(TextError::VerificationInputError)
    );
}

#[test]
fn test_ed25519_invalid_point_rejected() {
    // Not every 32-byte string decodes to a curve point: among the single-byte
    // y-coordinates below, some must be rejected at load time.
    let mut rejected = 0;
    for b in 0u8..=255 {
        let mut key = [0u8; 32];
        key[0] = b;
        if matches!(
            Ed25519Verifier::try_new(&key),
            Err(TextError::KeyFormatError)
        ) {
            rejected += 1;
        }
    }
    assert!(rejected > 0);
}

#[test]
fn test_textual_verify_wrong_length_signature() {
    let keys = process_generator(TextSignFormat::Ed25519).unwrap();
    let short_sig = process_text_sign(DATA, KEY, TextSignFormat::Blake3).unwrap();
    // 32 bytes of valid base64 cannot parse as a 64-byte Ed25519 signature:
    // the error is distinct from a `Not verified` verdict.
    assert_eq!(
        process_text_verify(DATA, &keys[1], TextSignFormat::Ed25519, &short_sig),
        Err(TextError::VerificationInputError)
    );
}

#[test]
fn test_textual_ed25519_round_trip() {
    let keys = process_generator(TextSignFormat::Ed25519).unwrap();
    let sig = process_text_sign(DATA, &keys[0], TextSignFormat::Ed25519).unwrap();
    let verdict = process_text_verify(DATA, &keys[1], TextSignFormat::Ed25519, &sig).unwrap();
    assert_eq!(verdict, "Verified");
}
