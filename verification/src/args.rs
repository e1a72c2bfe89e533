//! The run configuration handed in by the caller: the command line's
//! shape, reduced to plain values. Byte strings carry the UTF-8 bytes of
//! the corresponding command-line text.

use vstd::prelude::*;

verus! {

/// The whole command line.
pub struct Args {
    pub command: Commands,
}

/// The two sub-commands.
pub enum Commands {
    Download(DownloadCommand),
    Search(SearchCommand),
}

/// Configuration of one download run: the tag list, the output root,
/// and one independent exclusion flag per content rating.
#[derive(Clone)]
pub struct DownloadCommand {
    pub tags: Vec<Vec<u8>>,
    pub save_location: Vec<u8>,
    pub exclude_general: bool,
    pub exclude_sensitive: bool,
    pub exclude_questionable: bool,
    pub exclude_explicit: bool,
}

/// Configuration of a tag search (no verified logic hangs off it).
#[derive(Clone)]
pub struct SearchCommand {
    pub search_term: Vec<u8>,
}

/// An optional login / API-key pair, appended to every API request when
/// present.
#[derive(Clone)]
pub struct Credentials {
    pub login: Vec<u8>,
    pub api_key: Vec<u8>,
}

} // verus!
