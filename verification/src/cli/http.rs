//! Options for the static-file HTTP server command.

use vstd::prelude::*;

verus! {

/// Options for serving: the directory to serve and the port to listen on.
#[derive(Debug, Clone)]
pub struct HttpServeOpts {
    pub path: String,
    pub port: u16,
}

/// The HTTP subcommands.
#[derive(Debug, Clone)]
pub enum HttpSubCommand {
    Serve(HttpServeOpts),
}

} // verus!
