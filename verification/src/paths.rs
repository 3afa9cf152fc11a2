//! File paths as text: joining a directory and a name with the platform's separator.

use vstd::prelude::*;
use vstd::string::StringExecFns;
use crate::text::same_text;

verus! {

/// `path`, the separator `sep` and `file`, in a row.
pub open spec fn join_spec(path: Seq<char>, sep: Seq<char>, file: Seq<char>) -> Seq<char> {
    path + sep + file
}

/// Whether `full` is `path` and `file` joined by a separator of one character.
pub open spec fn joined(full: Seq<char>, path: Seq<char>, file: Seq<char>) -> bool {
    exists|sep: Seq<char>| sep.len() == 1 && full == join_spec(path, sep, file)
}

/// The directory that the directive `dir` names below `base`, with `sep` as
/// the separator: `base` itself where `dir` is empty or a dot.
pub open spec fn dir_spec(base: Seq<char>, sep: Seq<char>, dir: Seq<char>) -> Seq<char> {
    if is_here(dir) {
        base
    } else {
        join_spec(base, sep, dir)
    }
}

/// Whether a directory directive stands for the directory it is relative to:
/// it is empty or a single dot.
pub open spec fn is_here(dir: Seq<char>) -> bool {
    dir.len() == 0 || dir == seq!['.']
}

/// `std::path::MAIN_SEPARATOR_STR`: the platform's path separator, which is
/// one character long. Which character it is depends on the platform.
#[verifier::external_body]
pub(crate) fn separator() -> (r: &'static str)
    ensures
        r@.len() == 1,
{
    std::path::MAIN_SEPARATOR_STR
}

/// `path` and `file` joined by `sep`.
pub fn join_path(path: &str, sep: &str, file: &str) -> (r: String)
    ensures
        r@ == join_spec(path@, sep@, file@),
{
    path.to_owned().concat(sep).concat(file)
}

/// `path` and `file` joined by the platform's separator.
pub fn join(path: &str, file: &str) -> (r: String)
    ensures
        joined(r@, path@, file@),
{
    let sep = separator();
    join_path(path, sep, file)
}

/// Whether `dir` is empty or a single dot.
pub fn here(dir: &str) -> (r: bool)
    ensures
        r == is_here(dir@),
{
    let r = dir.is_empty() || same_text(dir, ".");
    proof {
        reveal_strlit(".");
        assert("."@ =~= seq!['.']);
    }
    r
}

/// The directory that `dir` names below `base`, with `sep` as the separator.
pub fn resolve_dir(base: &str, sep: &str, dir: &str) -> (r: String)
    ensures
        r@ == dir_spec(base@, sep@, dir@),
{
    if here(dir) {
        base.to_owned()
    } else {
        join_path(base, sep, dir)
    }
}

} // verus!
