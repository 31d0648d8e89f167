//! What the library asks of paths: the parts of their names, and what
//! they are on disk.

use vstd::prelude::*;

verus! {

/// The final component of a path, as `Path::file_name` gives it (`None`
/// when the path ends in `..` or is a root).
pub uninterp spec fn path_file_name(path: Seq<char>) -> Option<Seq<char>>;

/// The index of the last `.` among the first `n` chars of the name, or -1
/// when there's none.
pub open spec fn last_dot(name: Seq<char>, n: int) -> int
    decreases n,
{
    if n <= 0 {
        -1
    } else if name[n - 1] == '.' {
        n - 1
    } else {
        last_dot(name, n - 1)
    }
}

/// The extension of a path, as `Path::extension` is documented: none
/// without a file name, none when the file name has no `.` or only one at
/// its start, else the part of the file name after its last `.`.
pub open spec fn path_extension(path: Seq<char>) -> Option<Seq<char>> {
    match path_file_name(path) {
        None => None,
        Some(name) => {
            let k = last_dot(name, name.len() as int);
            if k <= 0 { None } else { Some(name.skip(k + 1)) }
        },
    }
}

/// The views of an optional string slice.
pub open spec fn opt_str_view(o: Option<&str>) -> Option<Seq<char>> {
    match o {
        Some(s) => Some(s@),
        None => None,
    }
}

/// The final component of the path.
///
/// Trusted: `Path::file_name`, then `OsStr::to_str`, which can't fail on
/// what came from a `str`; the result depends on the path only.
#[verifier::external_body]
pub(crate) fn file_name(path: &str) -> (res: Option<&str>)
    ensures
        opt_str_view(res) == path_file_name(path@),
{
    std::path::Path::new(path).file_name().and_then(|n| n.to_str())
}

/// The extension of the path.
///
/// Trusted: `Path::extension`, which its documentation describes as the
/// part of `file_name` after the final `.` (none without a file name, or
/// without `.` other than a leading one), then `OsStr::to_str`, which can't
/// fail on a part of what came from a `str`.
#[verifier::external_body]
pub(crate) fn extension(path: &str) -> (res: Option<&str>)
    ensures
        opt_str_view(res) == path_extension(path@),
{
    std::path::Path::new(path).extension().and_then(|e| e.to_str())
}

/// Whether the path is a directory on disk.
///
/// Trusted: `Path::is_dir`, whose answer depends on the file system at
/// the time of the call: nothing is stated of it.
#[verifier::external_body]
pub(crate) fn is_dir(path: &str) -> bool {
    std::path::Path::new(path).is_dir()
}

/// Whether the path is a regular file on disk.
///
/// Trusted: `Path::is_file`, whose answer depends on the file system at
/// the time of the call: nothing is stated of it.
#[verifier::external_body]
pub(crate) fn is_file(path: &str) -> bool {
    std::path::Path::new(path).is_file()
}

} // verus!
