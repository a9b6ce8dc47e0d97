use vstd::prelude::*;
use crate::base::path::{path_join, spec_path_join};

verus! {

/// Where a working directory keeps the state of its backend:
/// `<tf_root>/.terraform/terraform.tfstate`.
pub open spec fn spec_state_file_path(tf_root: Seq<char>) -> Seq<char> {
    spec_path_join(spec_path_join(tf_root, ".terraform"@), "terraform.tfstate"@)
}

/// Reads the state file of a working directory.
#[derive(Clone, Debug)]
pub struct TFStateAdapter {}

impl Default for TFStateAdapter {
    fn default() -> (r: Self)
        ensures
            r == (TFStateAdapter {}),
    {
        TFStateAdapter {}
    }
}

impl TFStateAdapter {
    pub fn new() -> (r: Self)
        ensures
            r == (TFStateAdapter {}),
    {
        TFStateAdapter {}
    }

    /// The state file of the working directory `tf_root`.
    pub fn state_file_path(&self, tf_root: &String) -> (r: String)
        ensures
            r@ == spec_state_file_path(tf_root@),
    {
        let dir = path_join(tf_root.as_str(), ".terraform");
        path_join(dir.as_str(), "terraform.tfstate")
    }
}

} // verus!
