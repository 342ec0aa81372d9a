//! Packaging as a zip archive (Windows).

use vstd::prelude::*;
use crate::context::Context;
use crate::manifest::Manifest;
use crate::staging::{flat_plan, steps_of, ArchiveFormat, StageOp};

pub mod archive;

verus! {

/// The steps that package the plan `m` as a zip archive, staging under
/// `temp_root`.
pub fn build(ctx: &Context, manifest: &Manifest, temp_root: &str) -> (r: Vec<StageOp>)
    ensures
        steps_of(r@) == flat_plan(*manifest, temp_root@, ArchiveFormat::Zip, false),
{
    archive::create_zip(ctx, manifest, temp_root)
}

} // verus!
