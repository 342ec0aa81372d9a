//! Settings shared by every stage of a run.

use vstd::prelude::*;
use crate::paths::{parent, parent_dir};

verus! {

/// Where the project manifest is, the directory relative paths start from,
/// and whether to report each step.
pub struct Context {
    pub verbose: bool,
    pub manifest_path: String,
    pub base_dir: String,
}

impl Context {
    /// A context for the manifest at `manifest_path`; its directory becomes the
    /// base directory.
    pub fn new(manifest_path: String, verbose: bool) -> (r: Self)
        ensures
            r.verbose == verbose,
            r.manifest_path == manifest_path,
            r.base_dir@ == parent_dir(manifest_path@),
    {
        let base_dir = parent(manifest_path.as_str());
        Context { verbose, manifest_path, base_dir }
    }
}

} // verus!
