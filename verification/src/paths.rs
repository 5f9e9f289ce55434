//! Paths inside the build's output directory.

use vstd::prelude::*;

verus! {

/// A borrowed file system path of std.
#[verifier::external_type_specification]
#[verifier::external_body]
pub struct ExPath(std::path::Path);

/// An owned file system path of std.
#[verifier::external_type_specification]
#[verifier::external_body]
pub struct ExPathBuf(std::path::PathBuf);

/// The path of `name` inside `out_dir` (std's `Path::join`; an absolute
/// `name` replaces `out_dir`). Nothing about the path is stated: std's
/// paths have no abstract value here.
#[verifier::external_body]
pub fn output_path(out_dir: &std::path::Path, name: &str) -> std::path::PathBuf {
    out_dir.join(name)
}

} // verus!
