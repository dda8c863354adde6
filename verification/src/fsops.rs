//! What is decided about filesystem operations: the command that extracts
//! an archive, and how its ending is read.
use crate::go::Reply;
use vstd::prelude::*;
use vstd::string::*;

verus! {

/// The program that extracts archives.
pub const EXTRACT_PROGRAM: &'static str = "tar";

/// The arguments with which `tar` extracts the gzip-compressed archive
/// `src` into the existing directory `dest`: `-C {dest} -xzf {src}`.
pub open spec fn extract_arguments(src: Seq<char>, dest: Seq<char>) -> Seq<Seq<char>> {
    seq!["-C"@, dest, "-xzf"@, src]
}

/// The texts of a list of arguments.
pub open spec fn texts(arguments: Seq<String>) -> Seq<Seq<char>> {
    Seq::new(arguments.len(), |i: int| arguments[i]@)
}

/// The arguments for `tar` that extract `src` into `dest`.
pub fn extract_tar_gz_arguments(src: &str, dest: &str) -> (r: Vec<String>)
    ensures
        texts(r@) == extract_arguments(src@, dest@),
{
    let mut arguments: Vec<String> = Vec::new();
    arguments.push("-C".to_owned());
    arguments.push(dest.to_owned());
    arguments.push("-xzf".to_owned());
    arguments.push(src.to_owned());
    assert(texts(arguments@) =~= extract_arguments(src@, dest@));
    arguments
}

/// How the ending of the extracting program is read: it has extracted the
/// archive only where it ended with the exit code 0. Any other code, and an
/// ending without a code, is a failure.
pub open spec fn extraction_outcome(exit_code: Option<i32>) -> Reply {
    if exit_code == Some(0i32) {
        Reply::Done
    } else {
        Reply::Failed
    }
}

/// The reply that the ending of the extracting program amounts to.
pub fn extraction_reply(exit_code: Option<i32>) -> (r: Reply)
    ensures
        r == extraction_outcome(exit_code),
{
    match exit_code {
        Some(code) => if code == 0 {
            Reply::Done
        } else {
            Reply::Failed
        },
        None => Reply::Failed,
    }
}

} // verus!
