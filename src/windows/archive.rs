//! The zip run: a flat staging tree written as one deflate archive.

use vstd::prelude::*;
use crate::context::Context;
use crate::manifest::Manifest;
use crate::paths::join_path;
use crate::staging::{flat_layout, flat_plan, steps_of, ArchiveFormat, StageOp};
use crate::text::chars_of;

verus! {

/// The steps that stage the plan `m` under `temp_root` and write
/// `<output_folder>/<filename>.zip`. File modes are left alone.
pub fn create_zip(ctx: &Context, manifest: &Manifest, temp_root: &str) -> (r: Vec<StageOp>)
    ensures
        steps_of(r@) == flat_plan(*manifest, temp_root@, ArchiveFormat::Zip, false),
{
    flat_layout(manifest, temp_root, ArchiveFormat::Zip, false)
}

/// The archive entry name of a walked path: its part below `root`. The root
/// itself, and a path outside it, have none.
pub open spec fn entry_name(root: Seq<char>, path: Seq<char>) -> Option<Seq<char>> {
    let prefix = join_path(root, ""@);
    if path.len() > prefix.len() && path.subrange(0, prefix.len() as int) == prefix {
        Some(path.subrange(prefix.len() as int, path.len() as int))
    } else {
        None
    }
}

/// The archive entry name of `path` under `root`, as [`entry_name`] says.
pub fn archive_entry_name(root: &str, path: &str) -> (r: Option<String>)
    ensures
        match r {
            Some(s) => entry_name(root@, path@) == Some(s@),
            None => entry_name(root@, path@) is None,
        },
{
    let prefix = crate::paths::join(root, "");
    let p = chars_of(prefix.as_str());
    let t = chars_of(path);
    if t.len() <= p.len() {
        return None;
    }
    let mut i: usize = 0;
    while i < p.len()
        invariant
            p@ == prefix@,
            prefix@ == join_path(root@, ""@),
            t@ == path@,
            p@.len() < t@.len(),
            i <= p@.len(),
            t@.subrange(0, i as int) == p@.subrange(0, i as int),
        decreases p@.len() - i,
    {
        if t[i] != p[i] {
            assert(t@.subrange(0, p@.len() as int)[i as int] != p@[i as int]);
            return None;
        }
        i = i + 1;
        assert(t@.subrange(0, i as int) =~= p@.subrange(0, i as int));
    }
    assert(p@.subrange(0, i as int) =~= p@);
    Some(String::from_str(path.substring_char(p.len(), t.len())))
}

/// What a walked path becomes in a zip archive.
#[derive(Debug, PartialEq, Eq)]
pub enum ZipEntry {
    /// A file entry with this name and the file's bytes.
    File(String),
    /// An empty directory entry with this name.
    Directory(String),
    /// Nothing: the staging root itself, or a path outside it.
    Skip,
}

/// The zip entry for `path`, found under `root` by the walk; `is_file` says
/// whether it is a regular file.
pub fn zip_entry(root: &str, path: &str, is_file: bool) -> (r: ZipEntry)
    ensures
        match entry_name(root@, path@) {
            None => r == ZipEntry::Skip,
            Some(n) => if is_file {
                r matches ZipEntry::File(s) && s@ == n
            } else {
                r matches ZipEntry::Directory(s) && s@ == n
            },
        },
{
    match archive_entry_name(root, path) {
        None => ZipEntry::Skip,
        Some(n) => if is_file {
            ZipEntry::File(n)
        } else {
            ZipEntry::Directory(n)
        },
    }
}

} // verus!
