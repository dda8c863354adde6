//! The commands that manage Go, as they come from the command line.
use vstd::prelude::*;

verus! {

/// The command for Go, with the action to take.
#[derive(Debug, Clone)]
pub struct Go {
    pub action: Action,
}

/// What to do with Go.
#[derive(Debug, Clone)]
pub enum Action {
    Install(Install),
    Uninstall(Uninstall),
    Upgrade(Upgrade),
}

/// An installation as asked for: nothing in it has been validated.
#[derive(Debug, Clone)]
pub struct Install {
    /// The version to install.
    pub version: String,
    /// The architecture to install for.
    pub arch: String,
    /// The directory to install into.
    pub dest: String,
}

/// A removal as asked for.
#[derive(Debug, Clone)]
pub struct Uninstall {
    /// The root directory of the installed toolchain.
    pub go_root: String,
    /// Whether to remove without asking.
    pub skip_prompt: bool,
}

/// An upgrade as asked for. It has no behaviour yet.
#[derive(Debug, Clone)]
pub struct Upgrade {}

} // verus!
