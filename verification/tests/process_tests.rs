use base64::Engine;
use rcli::{
    parse_exp_days, process_base64_decode, process_base64_encode, process_csv, process_genpass,
    process_jwt_sign, process_jwt_verify, process_text_decrypt, process_text_encrypt,
    render_dir_listing, trim_str, Base64Error, Base64Format, ChaCha20Poly1305Algorithm,
    ChaChaError, CsvError, JwtError, OutputFormat,
};

#[test]
fn test_process_encode() {
    let data = b"Cargo.toml";
    let encoded = process_base64_encode(data, Base64Format::Standard);
    let expected = base64::engine::general_purpose::STANDARD.encode(data);
    assert_eq!(encoded, expected);
    assert_eq!(process_base64_encode(b"hi", Base64Format::Standard), "aGk=");
}

#[test]
fn test_process_decode() {
    let data = b"Cargo.toml";
    let encoded = process_base64_encode(data, Base64Format::Standard);
    let decoded = process_base64_decode(&encoded, Base64Format::Standard).unwrap();
    assert_eq!(decoded, data);
}

#[test]
fn test_base64_trims_whitespace() {
    let decoded = process_base64_decode(" aGk=\n", Base64Format::Standard).unwrap();
    assert_eq!(decoded, b"hi");
}

#[test]
fn test_base64_urlsafe_round_trip() {
    let data: Vec<u8> = (0u8..=255).collect();
    let encoded = process_base64_encode(&data, Base64Format::Urlsafe);
    assert!(!encoded.contains('='));
    let decoded = process_base64_decode(&encoded, Base64Format::Urlsafe).unwrap();
    assert_eq!(decoded, data);
}

#[test]
fn test_base64_rejects_bad_input() {
    assert_eq!(
        process_base64_decode("!!!", Base64Format::Standard),
        Err(Base64Error::InvalidEncoding)
    );
    assert_eq!(
        process_base64_decode("aGk", Base64Format::Standard),
        Err(Base64Error::InvalidEncoding)
    );
}

#[test]
fn test_trim_str() {
    assert_eq!(trim_str(" \t abc \n\r"), "abc");
    assert_eq!(trim_str("abc"), "abc");
    assert_eq!(trim_str("  \n "), "");
    assert_eq!(trim_str(""), "");
    assert_eq!(trim_str("\u{A0}\u{2003}abc\u{3000}\u{85}"), "abc");
    assert_eq!(trim_str("a\u{A0}b"), "a\u{A0}b");
}

#[test]
fn test_genpass_shape() {
    let password = process_genpass(16, true, true, true, true);
    assert_eq!(password.len(), 16);
    assert!(password.iter().any(|b| (b'A'..=b'Z').contains(b) && *b != b'O'));
    assert!(password.iter().any(|b| (b'a'..=b'z').contains(b) && *b != b'o'));
    assert!(password.iter().any(|b| (b'1'..=b'9').contains(b)));
    assert!(password.iter().any(|b| b"!@#$%^&*-_".contains(b)));
}

#[test]
fn test_genpass_single_class() {
    let password = process_genpass(8, false, false, true, false);
    assert_eq!(password.len(), 8);
    assert!(password.iter().all(|b| (b'1'..=b'9').contains(b)));
    let minimal = process_genpass(2, true, false, false, true);
    assert_eq!(minimal.len(), 2);
}

#[test]
fn test_process_csv_json() {
    let input = b"Name,Position\nTom,Keeper\nAnn,Striker\n";
    let rendered = process_csv(input, OutputFormat::Json).unwrap();
    let mut first = serde_json::Map::new();
    first.insert("Name".to_string(), serde_json::Value::from("Tom"));
    first.insert("Position".to_string(), serde_json::Value::from("Keeper"));
    let mut second = serde_json::Map::new();
    second.insert("Name".to_string(), serde_json::Value::from("Ann"));
    second.insert("Position".to_string(), serde_json::Value::from("Striker"));
    let expected = serde_json::to_string_pretty(&vec![
        serde_json::Value::Object(first),
        serde_json::Value::Object(second),
    ])
    .unwrap();
    assert_eq!(rendered, expected);
}

#[test]
fn test_process_csv_yaml() {
    let input = b"Name,Position\nTom,Keeper\n";
    let rendered = process_csv(input, OutputFormat::Yaml).unwrap();
    assert!(rendered.contains("Name: Tom"));
    assert!(rendered.contains("Position: Keeper"));
}

#[test]
fn test_process_csv_rejects_ragged_input() {
    let input = b"Name,Position\nTom\n";
    assert_eq!(process_csv(input, OutputFormat::Json), Err(CsvError::Parse));
}

#[test]
fn test_parse_exp_days() {
    assert_eq!(parse_exp_days("14d"), Ok(14));
    assert_eq!(parse_exp_days("0d"), Ok(0));
    assert_eq!(parse_exp_days("007d"), Ok(7));
    assert_eq!(parse_exp_days("+14d"), Ok(14));
    assert_eq!(parse_exp_days("-5d"), Ok(-5));
    assert_eq!(parse_exp_days("-0d"), Ok(0));
    assert_eq!(parse_exp_days("9223372036854775807d"), Ok(i64::MAX));
    assert_eq!(parse_exp_days("-9223372036854775808d"), Ok(i64::MIN));
    assert_eq!(
        parse_exp_days("9223372036854775808d"),
        Err(JwtError::ExpiryOverflow)
    );
    assert_eq!(
        parse_exp_days("-9223372036854775809d"),
        Err(JwtError::ExpiryOverflow)
    );
    assert_eq!(parse_exp_days("d"), Err(JwtError::InvalidExpiry));
    assert_eq!(parse_exp_days("+d"), Err(JwtError::InvalidExpiry));
    assert_eq!(parse_exp_days("-d"), Err(JwtError::InvalidExpiry));
    assert_eq!(parse_exp_days("+-5d"), Err(JwtError::InvalidExpiry));
    assert_eq!(parse_exp_days("14"), Err(JwtError::InvalidExpiry));
    assert_eq!(parse_exp_days("1x4d"), Err(JwtError::InvalidExpiry));
    assert_eq!(parse_exp_days(""), Err(JwtError::InvalidExpiry));
}

#[test]
fn test_jwt_sign_past_expiry() {
    // A negative day count is accepted, as signed parsing admits it; the
    // token it yields is already expired.
    let token = process_jwt_sign("b@b.com", "me", "-5d").unwrap();
    assert_eq!(token.split('.').count(), 3);
    assert_eq!(process_jwt_verify(&token, "me"), Err(JwtError::Other));
}

#[test]
fn test_jwt_sign_verify_round_trip() {
    let token = process_jwt_sign("b@b.com", "me", "14d").unwrap();
    assert_eq!(token.split('.').count(), 3);
    assert_eq!(process_jwt_verify(&token, "me"), Ok(true));
    assert!(process_jwt_verify(&token, "you").is_err());
    assert_eq!(process_jwt_verify("not a token", "me"), Ok(false));
}

#[test]
fn test_jwt_rejects_bad_expiry() {
    assert_eq!(
        process_jwt_sign("b@b.com", "me", "14"),
        Err(JwtError::InvalidExpiry)
    );
}

#[test]
fn test_chacha20poly1305_sign_verify() {
    let key = b"2w9#$w%&99hUbny8e_xqCL&Z$HrM3*AG";
    let data = b"plaintext message";
    let signed = process_text_encrypt(data, key).unwrap();
    let ciphertext = process_base64_decode(&signed, Base64Format::Urlsafe).unwrap();
    let reencoded = process_base64_encode(&ciphertext, Base64Format::Urlsafe);
    assert_eq!(reencoded, signed);
    let plaintext = process_text_decrypt(&signed, key).unwrap();
    assert_eq!(plaintext.as_bytes(), data);
}

#[test]
fn test_chacha_error_paths() {
    let key = b"2w9#$w%&99hUbny8e_xqCL&Z$HrM3*AG";
    assert_eq!(
        process_text_encrypt(b"x", &key[..5]),
        Err(ChaChaError::KeyFormat)
    );
    assert_eq!(
        process_text_decrypt("!!!", key),
        Err(ChaChaError::InvalidEncoding)
    );
    let signed = process_text_encrypt(b"attack at dawn", key).unwrap();
    let mut tampered = process_base64_decode(&signed, Base64Format::Urlsafe).unwrap();
    tampered[0] ^= 1;
    let algorithm = ChaCha20Poly1305Algorithm::try_new(key).unwrap();
    assert_eq!(algorithm.decrypt(&tampered), Err(ChaChaError::Decrypt));
}

#[test]
fn test_render_dir_listing() {
    let names = vec!["a.txt".to_string(), "sub/dir".to_string()];
    let page = render_dir_listing(&names);
    let mut expected = String::new();
    expected.push_str("<!DOCTYPE html>\n<html>\n<head>\n<title>Home</title>\n</head>\n<body>\n");
    expected.push_str("<h1>Directory list</h1>\n<ul>\n");
    expected.push_str("<li><a href=\"a.txt\">a.txt</a></li>\n");
    expected.push_str("<li><a href=\"sub/dir\">sub/dir</a></li>\n");
    expected.push_str("</ul>\n</body>\n</html>\n");
    assert_eq!(page, expected);
    let empty = render_dir_listing(&Vec::new());
    assert!(empty.contains("<ul>\n</ul>"));
}
