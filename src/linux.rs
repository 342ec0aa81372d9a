//! Packaging as a gzip-compressed tar archive (Linux, and macOS on request).

use vstd::prelude::*;
use crate::context::Context;
use crate::manifest::Manifest;
use crate::staging::{flat_plan, steps_of, ArchiveFormat, StageOp};

pub mod archive;

verus! {

/// The steps that package the plan `m` as a tar.gz archive, staging under
/// `temp_root`.
pub fn build(ctx: &Context, manifest: &Manifest, temp_root: &str) -> (r: Vec<StageOp>)
    ensures
        steps_of(r@) == flat_plan(*manifest, temp_root@, ArchiveFormat::TarGz, true),
{
    archive::create_tar_gz(ctx, manifest, temp_root)
}

} // verus!
