use vstd::prelude::*;

verus! {

/// The command line: one subcommand.
#[derive(Debug, Clone, PartialEq, Eq)]
pub struct Cli {
    pub command: Commands,
}

/// What the program is asked to do.
#[derive(Debug, Clone, PartialEq, Eq)]
pub enum Commands {
    /// Download every video of a YouTube playlist into a local directory.
    Download { playlist_url: String, output_path: String },
    /// Run the long-lived daemon: HTTP server, startup checks, heartbeat.
    Serve,
    /// Download the latest yt-dlp release and replace the local binary.
    UpdateYtdlp,
}

} // verus!
