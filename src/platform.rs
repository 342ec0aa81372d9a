//! The target platform, decided once per run and handed to every component.

use vstd::prelude::*;
use crate::context::Context;
use crate::manifest::Manifest;
use crate::staging::{bundle_plan, flat_plan, steps_of, ArchiveFormat, StageOp};
use crate::text::same_text;

verus! {

/// The operating systems a package can be made for.
#[derive(Debug, Clone, Copy, PartialEq, Eq, Structural)]
pub enum Platform {
    Windows,
    Linux,
    MacOS,
}

/// The platform that an operating-system name (as Rust spells it) denotes.
pub open spec fn platform_for(os: Seq<char>) -> Option<Platform> {
    if os == "macos"@ {
        Some(Platform::MacOS)
    } else if os == "windows"@ {
        Some(Platform::Windows)
    } else if os == "linux"@ {
        Some(Platform::Linux)
    } else {
        None
    }
}

impl Platform {
    /// The identifier of the platform in file names and templates.
    pub open spec fn name(self) -> Seq<char> {
        match self {
            Platform::MacOS => "macos"@,
            Platform::Windows => "windows"@,
            Platform::Linux => "linux"@,
        }
    }

    /// The platform of the operating system named `target_os`; `None` for
    /// one that has no packaging support.
    pub fn current(target_os: &str) -> (r: Option<Platform>)
        ensures
            r == platform_for(target_os@),
    {
        if same_text(target_os, "macos") {
            Some(Platform::MacOS)
        } else if same_text(target_os, "windows") {
            Some(Platform::Windows)
        } else if same_text(target_os, "linux") {
            Some(Platform::Linux)
        } else {
            None
        }
    }

    /// The platform identifier.
    pub fn as_str(&self) -> (r: &'static str)
        ensures
            r@ == self.name(),
    {
        match self {
            Platform::MacOS => "macos",
            Platform::Windows => "windows",
            Platform::Linux => "linux",
        }
    }
}

/// The identifier of the platform named `target_os`, or `unknown`.
pub fn platform_string(target_os: &str) -> (r: &'static str)
    ensures
        r@ == match platform_for(target_os@) {
            Some(p) => p.name(),
            None => "unknown"@,
        },
{
    match Platform::current(target_os) {
        Some(p) => p.as_str(),
        None => "unknown",
    }
}

/// The artifact a run produces.
#[derive(Debug, Clone, Copy, PartialEq, Eq, Structural)]
pub enum Target {
    Archive(ArchiveFormat),
    DiskImage,
    /// A disk image was asked for where none can be made.
    Unavailable,
}

/// The archive format of a platform: zip on Windows, tar.gz elsewhere.
pub open spec fn archive_format_of(platform: Platform) -> ArchiveFormat {
    if platform == Platform::Windows {
        ArchiveFormat::Zip
    } else {
        ArchiveFormat::TarGz
    }
}

/// The artifact for the user's flags: an archive when one is asked for; a
/// disk image when one is asked for or on macOS, which only macOS can make;
/// otherwise the platform's archive.
pub open spec fn target_of(archive: bool, dmg: bool, platform: Platform) -> Target {
    if archive {
        Target::Archive(archive_format_of(platform))
    } else if dmg || platform == Platform::MacOS {
        if platform == Platform::MacOS {
            Target::DiskImage
        } else {
            Target::Unavailable
        }
    } else {
        Target::Archive(archive_format_of(platform))
    }
}

/// Chooses the artifact, as [`target_of`] says.
pub fn select_target(archive: bool, dmg: bool, platform: Platform) -> (r: Target)
    ensures
        r == target_of(archive, dmg, platform),
{
    let format = if platform == Platform::Windows {
        ArchiveFormat::Zip
    } else {
        ArchiveFormat::TarGz
    };
    if archive {
        Target::Archive(format)
    } else if dmg || platform == Platform::MacOS {
        if platform == Platform::MacOS {
            Target::DiskImage
        } else {
            Target::Unavailable
        }
    } else {
        Target::Archive(format)
    }
}

/// The steps of a run that produces `target`; none when it is unavailable.
/// File modes are set for tar.gz archives and disk images.
pub open spec fn run_plan(m: Manifest, target: Target, temp_root: Seq<char>) -> Seq<crate::staging::StageStep> {
    match target {
        Target::Archive(ArchiveFormat::TarGz) => flat_plan(m, temp_root, ArchiveFormat::TarGz, true),
        Target::Archive(ArchiveFormat::Zip) => flat_plan(m, temp_root, ArchiveFormat::Zip, false),
        Target::DiskImage => bundle_plan(m, temp_root),
        Target::Unavailable => Seq::empty(),
    }
}

/// The steps of a run that produces `target`, as [`run_plan`] says.
pub fn plan_run(ctx: &Context, manifest: &Manifest, target: Target, temp_root: &str) -> (r: Vec<StageOp>)
    ensures
        steps_of(r@) == run_plan(*manifest, target, temp_root@),
{
    match target {
        Target::Archive(ArchiveFormat::TarGz) => crate::linux::archive::create_tar_gz(ctx, manifest, temp_root),
        Target::Archive(ArchiveFormat::Zip) => crate::windows::archive::create_zip(ctx, manifest, temp_root),
        Target::DiskImage => crate::macos::dmg::create(ctx, manifest, temp_root),
        Target::Unavailable => {
            let r: Vec<StageOp> = Vec::new();
            assert(steps_of(r@) =~= Seq::<crate::staging::StageStep>::empty());
            r
        },
    }
}

/// The steps of the platform's own packaging: a disk image on macOS, a zip
/// archive on Windows, a tar.gz archive on Linux.
pub fn build(ctx: &Context, manifest: &Manifest, platform: Platform, temp_root: &str) -> (r: Vec<StageOp>)
    ensures
        steps_of(r@) == match platform {
            Platform::MacOS => bundle_plan(*manifest, temp_root@),
            Platform::Windows => flat_plan(*manifest, temp_root@, ArchiveFormat::Zip, false),
            Platform::Linux => flat_plan(*manifest, temp_root@, ArchiveFormat::TarGz, true),
        },
{
    match platform {
        Platform::MacOS => crate::macos::build(ctx, manifest, temp_root),
        Platform::Windows => crate::windows::build(ctx, manifest, temp_root),
        Platform::Linux => crate::linux::build(ctx, manifest, temp_root),
    }
}

} // verus!
