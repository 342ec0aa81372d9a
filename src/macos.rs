//! Packaging for macOS: an application bundle inside a disk image.

use vstd::prelude::*;
use crate::context::Context;
use crate::manifest::Manifest;
use crate::staging::{bundle_plan, steps_of, StageOp};

pub mod dmg;

verus! {

/// The steps that package the plan `m` as a disk image, staging under
/// `temp_root`.
pub fn build(ctx: &Context, manifest: &Manifest, temp_root: &str) -> (r: Vec<StageOp>)
    ensures
        steps_of(r@) == bundle_plan(*manifest, temp_root@),
{
    dmg::create(ctx, manifest, temp_root)
}

} // verus!
