//! Version resolution and toolchain lifecycle rules for managing Go
//! installations: version strings, platform tokens, archive names, download
//! endpoints, and the install / uninstall state machines.
use vstd::prelude::*;

pub mod cli;
pub mod config;
pub mod decimal;
pub mod fsops;
pub mod go;
pub mod outside;
pub mod runs;
pub mod semver;
pub mod text;
pub mod util;

verus! {

/// Operating systems for which release archives are published.
#[derive(Debug, Clone, Copy, PartialEq, Eq, Structural)]
pub enum Os {
    Darwin,
    Linux,
}

} // verus!
