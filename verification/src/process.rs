//! Processing layer: the message-authentication core and the computational
//! parts of the surrounding commands.

pub mod b64;
pub mod chacha20poly1305;
pub mod csv_convert;
pub mod gen_pass;
pub mod http_serve;
pub mod jwt;
pub mod text;

