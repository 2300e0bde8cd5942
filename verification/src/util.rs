//! Path-building helpers shared by the supervisor and the surrounding
//! application.

use vstd::prelude::*;
use vstd::string::StringExecFns;

verus! {

/// A directory entry path: the directory, a `/` separator, the file name.
pub fn join_path(directory: &str, name: &str) -> (r: String)
    ensures
        r@ == directory@ + "/"@ + name@,
{
    let mut out = String::from_str(directory);
    out.append("/");
    out.append(name);
    out
}

/// Appends a relative file name to the directory that holds the running
/// executable.  The caller supplies that directory (locating it is an
/// operating-system query); this function only builds the joined path.
pub fn join_current_exe_dir(current_exe_dir: &str, name: &str) -> (r: String)
    ensures
        r@ == current_exe_dir@ + "/"@ + name@,
{
    join_path(current_exe_dir, name)
}

} // verus!
