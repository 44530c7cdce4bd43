//! Location of the JSON fixtures that the adapter's tests read.

use vstd::prelude::*;

use crate::text::seq_ends_with_char;

verus! {

/// The path `base` joined with the relative component `child`, as
/// `PathBuf::join` forms it on Unix: a separator is inserted unless `base` is
/// empty or already ends with one.
pub open spec fn spec_path_join(base: Seq<char>, child: Seq<char>) -> Seq<char> {
    if base.len() == 0 || seq_ends_with_char(base, '/') {
        base + child
    } else {
        base + "/"@ + child
    }
}

/// Returns the path of the `test_data` directory under the crate directory
/// `manifest_dir`.
pub fn get_test_data_dir(manifest_dir: &str) -> (dir: String)
    ensures
        dir@ == spec_path_join(manifest_dir@, "test_data"@),
{
    crate::text::path_join(manifest_dir, "test_data")
}

} // verus!
