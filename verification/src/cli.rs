//! The run-mode and log-level choices the command line and the
//! configuration file both select between.
use vstd::prelude::*;

verus! {

/// Which front end the program starts in.
#[derive(Debug, Clone, Copy, PartialEq, Eq, Structural)]
pub enum Interface {
    Cli,
    Gui,
}

/// The verbosity of the log output.
#[derive(Debug, Clone, Copy, PartialEq, Eq, Structural)]
pub enum DebugMode {
    Trace,
    Debug,
    Info,
    Warn,
    Error,
}

} // verus!
