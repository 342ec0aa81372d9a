//! The tar.gz run: a flat staging tree whose non-documentation files are
//! made executable, written as one archive.

use vstd::prelude::*;
use crate::context::Context;
use crate::manifest::Manifest;
use crate::staging::{flat_layout, flat_plan, steps_of, ArchiveFormat, StageOp};

verus! {

/// The steps that stage the plan `m` under `temp_root` and write
/// `<output_folder>/<filename>.tar.gz`.
pub fn create_tar_gz(ctx: &Context, manifest: &Manifest, temp_root: &str) -> (r: Vec<StageOp>)
    ensures
        steps_of(r@) == flat_plan(*manifest, temp_root@, ArchiveFormat::TarGz, true),
{
    flat_layout(manifest, temp_root, ArchiveFormat::TarGz, true)
}

} // verus!
