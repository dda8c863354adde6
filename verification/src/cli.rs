//! The shape of the command line, as plain values.
use vstd::prelude::*;

pub mod go;

verus! {

/// What the command line holds: how verbose the log is, and a command.
#[derive(Debug, Clone)]
pub struct Opt {
    /// 0 for the usual log, 1 for debugging, 2 and more for tracing.
    pub verbose: u8,
    pub cmd: SubCommand,
}

/// The commands of the tool.
#[derive(Debug, Clone)]
pub enum SubCommand {
    Go(crate::cli::go::Go),
}

/// The log directive for the verbosity `verbose`.
pub open spec fn log_directive_of(verbose: u8) -> Seq<char> {
    if verbose == 0 {
        "hpydev=info"@
    } else if verbose == 1 {
        "hpydev=debug"@
    } else if verbose == 2 {
        "hpydev=trace"@
    } else {
        "trace"@
    }
}

/// The log directive that the verbosity asks for: the tool's own messages
/// up to tracing, and beyond that the messages of everything.
pub fn log_directive(verbose: u8) -> (r: &'static str)
    ensures
        r@ == log_directive_of(verbose),
{
    match verbose {
        0 => "hpydev=info",
        1 => "hpydev=debug",
        2 => "hpydev=trace",
        _ => "trace",
    }
}

} // verus!
