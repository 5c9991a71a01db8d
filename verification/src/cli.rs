//! The command line of a lowboy application.

use vstd::prelude::*;

verus! {

/// The options shared by every command: where to load the configuration
/// from, when not the default location.
pub struct LowboyArgs {
    pub config_path: Option<String>,
}

/// The commands besides serving.
pub enum Command {
    /// Print a configuration template.
    ConfigTemplate,
    /// Create a configuration file, at the given location or the default
    /// one.
    ConfigInit { config_path: Option<String> },
}

/// A parsed command line.
pub struct Cli {
    pub args: LowboyArgs,
    pub command: Option<Command>,
}

} // verus!
