//! The command-line surface, as plain data.
//!
//! Parsing the actual command line is left to the caller; these types
//! carry what it decided into the library.

use vstd::prelude::*;
use crate::types::OwnerType;
use crate::types::Theme;

verus! {

/// The parsed command line.
pub struct Args {
    pub command: GhChCommand,
}

/// The tool's subcommands.
pub enum GhChCommand {
    /// Serve the web interface.
    Serve {
        /// Owner to show results for.
        owner: Option<String>,
        /// Owner type.
        owner_type: OwnerType,
        /// Theme to use.
        theme: Theme,
        /// Explicit port to use instead of probing the default range.
        port: Option<u16>,
        /// Whether to skip opening the front end in the browser.
        skip_opening: bool,
    },
}

} // verus!
