use rcli::cli::text::parse_format as parse_text_format;
use rcli::{
    parse_base64_format, parse_format, verify_exists, verify_file_exists, verify_path_exists,
    Base64Format, OutputFormat, ParseFormatError, TextSignFormat,
};

const FIXTURE_DIR: &str = "/tmp/rcli_cli_fixture";

/// Lay out a directory that holds a `Cargo.toml` file, for the tests that
/// check paths on disk.
fn prepare_fixture_dir(rt: &tokio::runtime::Runtime) {
    rt.block_on(async {
        tokio::fs::create_dir_all(FIXTURE_DIR).await.unwrap();
        let manifest = format!("{}/Cargo.toml", FIXTURE_DIR);
        tokio::fs::write(manifest, b"[package]\n").await.unwrap();
    });
}

#[test]
fn test_verify_file_exists() {
    let rt = tokio::runtime::Runtime::new().unwrap();
    let here = rt.block_on(async { tokio::fs::metadata("Cargo.toml").await.is_ok() });
    if !here {
        // The harness may run this binary from a directory without the
        // crate's files: re-run this very test from one that has a manifest.
        prepare_fixture_dir(&rt);
        let status = rt.block_on(async {
            let exe = tokio::fs::read_link("/proc/self/exe").await.unwrap();
            tokio::process::Command::new(exe)
                .arg("--exact")
                .arg("test_verify_file_exists")
                .arg("--test-threads=1")
                .current_dir(FIXTURE_DIR)
                .status()
                .await
                .unwrap()
        });
        assert!(status.success());
        return;
    }
    assert_eq!(verify_exists("*"), Err("File does not exist".into()));
    assert_eq!(verify_exists("-"), Ok("-".into()));
    assert_eq!(
        verify_exists("not_exist.txt"),
        Err("File does not exist".into())
    );
    assert_eq!(verify_exists("Cargo.toml"), Ok("Cargo.toml".into()));
}

#[test]
fn test_verify_file_exists_strict() {
    let rt = tokio::runtime::Runtime::new().unwrap();
    prepare_fixture_dir(&rt);
    assert_eq!(
        verify_file_exists("-"),
        Err("File does not exist".to_string())
    );
    let manifest = format!("{}/Cargo.toml", FIXTURE_DIR);
    assert_eq!(verify_file_exists(&manifest), Ok(manifest.clone()));
    assert_eq!(
        verify_file_exists("/tmp/rcli_no_such_file"),
        Err("File does not exist".to_string())
    );
}

#[test]
fn test_verify_path_exists() {
    let rt = tokio::runtime::Runtime::new().unwrap();
    prepare_fixture_dir(&rt);
    assert_eq!(
        verify_path_exists(FIXTURE_DIR),
        Ok(FIXTURE_DIR.to_string())
    );
    let manifest = format!("{}/Cargo.toml", FIXTURE_DIR);
    assert_eq!(
        verify_path_exists(&manifest),
        Err("Path does not exist or is not a directory")
    );
    assert_eq!(
        verify_path_exists("/tmp/rcli_no_such_dir"),
        Err("Path does not exist or is not a directory")
    );
}

#[test]
fn test_parse_text_format() {
    assert_eq!(parse_text_format("blake3"), Ok(TextSignFormat::Blake3));
    assert_eq!(parse_text_format("ed25519"), Ok(TextSignFormat::Ed25519));
    assert_eq!(
        parse_text_format("Blake3"),
        Err(ParseFormatError::Unsupported)
    );
    assert_eq!(parse_text_format(""), Err(ParseFormatError::Unsupported));
}

#[test]
fn test_parse_base64_format() {
    assert_eq!(parse_base64_format("standard"), Ok(Base64Format::Standard));
    assert_eq!(parse_base64_format("STANDARD"), Ok(Base64Format::Standard));
    assert_eq!(parse_base64_format("UrlSafe"), Ok(Base64Format::Urlsafe));
    assert_eq!(
        parse_base64_format("base32"),
        Err(ParseFormatError::Unsupported)
    );
}

#[test]
fn test_parse_output_format() {
    assert_eq!(parse_format("json"), Ok(OutputFormat::Json));
    assert_eq!(parse_format("Yaml"), Ok(OutputFormat::Yaml));
    assert_eq!(parse_format("toml"), Err(ParseFormatError::Unsupported));
}

#[test]
fn test_format_labels() {
    assert_eq!(TextSignFormat::Blake3.label(), "Blake3");
    assert_eq!(TextSignFormat::Ed25519.label(), "Ed25519");
    assert_eq!(Base64Format::Standard.label(), "Standard");
    assert_eq!(Base64Format::Urlsafe.label(), "URL-safe");
    assert_eq!(OutputFormat::Json.label(), "json");
    assert_eq!(OutputFormat::Yaml.label(), "yaml");
}
