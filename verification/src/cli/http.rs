//! Options for the static file-serving subcommand.

use vstd::prelude::*;

verus! {

/// The HTTP subcommands: only serving a directory.
#[derive(Debug, Clone)]
pub enum HttpSubCommand {
    Serve(HttpServeOpts),
}

/// Options for serving: the directory to expose and the port to listen on.
#[derive(Debug, Clone)]
pub struct HttpServeOpts {
    pub dir: String,
    pub port: u16,
}

} // verus!
