//! The operator's global options, as plain values.

use vstd::prelude::*;

verus! {

/// What follows the global options on the command line: the name of a
/// command and the arguments meant for it.
#[derive(Clone, Debug)]
pub enum Subcommand {
    /// A command that is looked up by name; the name comes first.
    Other(Vec<String>),
}

/// The global options of one invocation.
#[derive(Clone, Debug)]
pub struct Cli {
    /// Verbose messages.
    pub verbose: bool,
    /// Print version information and stop.
    pub version: bool,
    /// The chip on the attached device.
    pub chip: String,
    /// The probe to use.
    pub probe: Option<String>,
    /// The archive to load.
    pub archive: Option<String>,
    /// The dump to load.
    pub dump: Option<String>,
    /// The command to run.
    pub cmd: Option<Subcommand>,
}

} // verus!
