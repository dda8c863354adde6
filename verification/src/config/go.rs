//! Fixed values for managing Go.
use vstd::prelude::*;

verus! {

/// The architecture that is installed where none is asked for.
pub const DEFAULT_ARCH: &'static str = "amd64";

/// The directory that is installed into where none is asked for.
pub const DEFAULT_DEST: &'static str = "/usr/local";

/// The location under which release archives are published, one path
/// segment per archive.
pub const ARCHIVE_URL: &'static str = "https://golang.org/dl";

/// Where a downloaded archive is kept until it has been extracted.
pub const STAGING_PATH: &'static str = "./go_archive.tar.gz";

} // verus!
