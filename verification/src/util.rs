//! Recognising the platform that the tool runs on.
use crate::text::same_text;
use crate::Os;
use vstd::prelude::*;

verus! {

/// The platform that an operating system's name stands for: `macos` and
/// `linux` are supported, in exactly that spelling.
pub open spec fn os_of_name(name: Seq<char>) -> Option<Os> {
    if name == "macos"@ {
        Some(Os::Darwin)
    } else if name == "linux"@ {
        Some(Os::Linux)
    } else {
        None
    }
}

/// The platform of the operating system called `name`, or `None` where that
/// system is not supported.
pub fn get_os(name: &str) -> (r: Option<Os>)
    ensures
        r == os_of_name(name@),
{
    if same_text(name, "macos") {
        Some(Os::Darwin)
    } else if same_text(name, "linux") {
        Some(Os::Linux)
    } else {
        None
    }
}

} // verus!
