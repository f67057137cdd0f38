//! Command-line toolkit library: message authentication (keyed BLAKE3 and
//! Ed25519 signatures), key generation, base64 helpers, password generation,
//! CSV conversion, JWT helpers, and the pure parts of an HTTP file server.

pub mod cli;
pub mod process;

pub use cli::base64_opt::{
    parse_base64_format, Base64DecodeOpts, Base64EncodeOpts, Base64Format, Base64SubCommand,
};
pub use cli::chacha20poly1305::{
    Chacha20Poly1305SubCommand, TextChacCha20GenKeyOpts, TextDecryptOpts, TextEncryptOpts,
};
pub use cli::csv_opt::{parse_format, CsvOpts, OutputFormat};
pub use cli::genpass_opt::GenPassOpts;
pub use cli::http::{HttpServeOpts, HttpSubCommand};
pub use cli::jwt::{JwtSignOpts, JwtSubCommand, JwtVerifyOpts};
pub use cli::text::{TextGenKeyOpts, TextSignFormat, TextSignOpts, TextSubCommand, TextVerifyOpts};
pub use cli::{
    verify_exists, verify_file_exists, verify_path_exists, Opts, ParseFormatError, SubCommand,
};
pub use process::b64::{process_base64_decode, process_base64_encode, trim_str, Base64Error};
pub use process::chacha20poly1305::{
    process_text_decrypt, process_text_encrypt, ChaCha20Poly1305Algorithm, ChaChaError,
};
pub use process::csv_convert::{process_csv, CsvError};
pub use process::gen_pass::process_genpass;
pub use process::http_serve::{render_dir_listing, HttpServeState};
pub use process::jwt::{
    jwt_sign_at, jwt_verdict, parse_exp_days, process_jwt_sign, process_jwt_verify, JwtError,
    JwtRejection,
};
pub use process::text::{
    process_generator, process_text_sign, process_text_verify, text_sign, text_verify, Blake3,
    Ed25519Signer, Ed25519Verifier, TextError, BLAKE3_SIG_LENGTH, ED25519_SIG_LENGTH, KEY_LENGTH,
};
