//! Location of the JSON fixtures that the adapter's tests read.

use vstd::prelude::*;

use crate::mt5::common::testing::spec_path_join;

verus! {

/// Returns the path of the `test_data` directory under the crate directory
/// `manifest_dir`.
pub fn get_test_data_dir(manifest_dir: &str) -> (dir: String)
    ensures
        dir@ == spec_path_join(manifest_dir@, "test_data"@),
{
    crate::text::path_join(manifest_dir, "test_data")
}

} // verus!
