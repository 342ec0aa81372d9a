//! The staging tree: the exact steps that lay out a package's content in a
//! fresh temporary directory, and the steps that turn it into the artifact.

use vstd::prelude::*;
use crate::manifest::Manifest;
use crate::paths::{extension, is_documentation, is_documentation_path, join, join_path, extension_of};
use crate::text::{join2, same_text};

verus! {

/// The two archive formats.
#[derive(Debug, Clone, Copy, PartialEq, Eq, Structural)]
pub enum ArchiveFormat {
    TarGz,
    Zip,
}

/// One filesystem step of a packaging run. Steps run in order and the first
/// that fails ends the run.
#[derive(Debug)]
pub enum StageOp {
    /// Create the directory and its parents unless it exists.
    EnsureDir(String),
    /// Delete the directory tree if it exists.
    RemoveTree(String),
    /// Create the directory and its parents.
    CreateDir(String),
    /// Copy a file or a directory tree, creating the destination's parents;
    /// a missing source fails the step, naming it.
    Copy { source: String, destination: String },
    /// Give the regular file at `path`, or every regular file below it when
    /// it is a directory, the mode rwxr-xr-x (POSIX only). Unless
    /// `every_file` is set, files named as documentation keep their mode.
    MakeExecutable { path: String, every_file: bool },
    /// Take the write permission of others from every entry under the
    /// directory (POSIX only), so that nothing staged is world-writable.
    RestrictWrite(String),
    /// Write text to a file.
    WriteFile { path: String, contents: String },
    /// Copy one file byte for byte.
    CopyFile { source: String, destination: String },
    /// Decode an image and write it as a multi-resolution icon container.
    ConvertIcon { source: String, destination: String },
    /// Create a symbolic link at `link` pointing to `target`.
    Symlink { link: String, target: String },
    /// Delete a file if it exists.
    RemoveFile(String),
    /// Write the tree under `source` into one archive file.
    Archive { format: ArchiveFormat, source: String, output: String },
    /// Run the disk-image driver on the tree under `staging`.
    DiskImage { staging: String, output: String },
}

/// A step as a value of text.
pub enum StageStep {
    EnsureDir(Seq<char>),
    RemoveTree(Seq<char>),
    CreateDir(Seq<char>),
    Copy(Seq<char>, Seq<char>),
    MakeExecutable(Seq<char>, bool),
    RestrictWrite(Seq<char>),
    WriteFile(Seq<char>, Seq<char>),
    CopyFile(Seq<char>, Seq<char>),
    ConvertIcon(Seq<char>, Seq<char>),
    Symlink(Seq<char>, Seq<char>),
    RemoveFile(Seq<char>),
    Archive(ArchiveFormat, Seq<char>, Seq<char>),
    DiskImage(Seq<char>, Seq<char>),
}

impl View for StageOp {
    type V = StageStep;

    open spec fn view(&self) -> StageStep {
        match self {
            StageOp::EnsureDir(p) => StageStep::EnsureDir(p@),
            StageOp::RemoveTree(p) => StageStep::RemoveTree(p@),
            StageOp::CreateDir(p) => StageStep::CreateDir(p@),
            StageOp::Copy { source, destination } => StageStep::Copy(source@, destination@),
            StageOp::MakeExecutable { path, every_file } => StageStep::MakeExecutable(
                path@,
                *every_file,
            ),
            StageOp::RestrictWrite(p) => StageStep::RestrictWrite(p@),
            StageOp::WriteFile { path, contents } => StageStep::WriteFile(path@, contents@),
            StageOp::CopyFile { source, destination } => StageStep::CopyFile(source@, destination@),
            StageOp::ConvertIcon { source, destination } => StageStep::ConvertIcon(
                source@,
                destination@,
            ),
            StageOp::Symlink { link, target } => StageStep::Symlink(link@, target@),
            StageOp::RemoveFile(p) => StageStep::RemoveFile(p@),
            StageOp::Archive { format, source, output } => StageStep::Archive(
                *format,
                source@,
                output@,
            ),
            StageOp::DiskImage { staging, output } => StageStep::DiskImage(staging@, output@),
        }
    }
}

/// The steps of a list of operations.
pub open spec fn steps_of(ops: Seq<StageOp>) -> Seq<StageStep> {
    ops.map_values(|o: StageOp| o@)
}

/// The copy operations of a plan, as text pairs.
pub open spec fn copy_pairs(m: Manifest) -> Seq<(Seq<char>, Seq<char>)> {
    m.copy_operations@.map_values(|p: (String, String)| (p.0@, p.1@))
}

/// The staging directory of a package under the temporary root.
pub open spec fn staging_root(temp_root: Seq<char>, name: Seq<char>) -> Seq<char> {
    join_path(temp_root, "emerge-"@ + name)
}

/// Steps for one copy operation in the flat layout: the destination lies
/// under the application directory, and on POSIX anything that is not
/// documentation becomes executable.
pub open spec fn flat_copy_steps(src: Seq<char>, dst: Seq<char>, app_dir: Seq<char>, posix: bool) -> Seq<
    StageStep,
> {
    let d = join_path(app_dir, dst);
    if posix && !is_documentation_path(dst) {
        seq![StageStep::Copy(src, d), StageStep::MakeExecutable(d, false)]
    } else {
        seq![StageStep::Copy(src, d)]
    }
}

/// Steps for the copy operations `ops`, in order, in the flat layout.
pub open spec fn flat_copies(ops: Seq<(Seq<char>, Seq<char>)>, app_dir: Seq<char>, posix: bool) -> Seq<
    StageStep,
>
    decreases ops.len(),
{
    if ops.len() == 0 {
        Seq::empty()
    } else {
        flat_copies(ops.drop_last(), app_dir, posix) + flat_copy_steps(
            ops.last().0,
            ops.last().1,
            app_dir,
            posix,
        )
    }
}

/// The archive file name extension of a format.
pub open spec fn archive_suffix(format: ArchiveFormat) -> Seq<char> {
    match format {
        ArchiveFormat::TarGz => ".tar.gz"@,
        ArchiveFormat::Zip => ".zip"@,
    }
}

/// The path of the artifact a plan produces with the given suffix.
pub open spec fn artifact_path(m: Manifest, suffix: Seq<char>) -> Seq<char> {
    join_path(m.output_folder@, m.filename@ + suffix)
}

/// The whole run for an archive: make the output folder, wipe and recreate
/// the staging tree `<root>/<name>/`, copy, archive, and clean up.
pub open spec fn flat_plan(m: Manifest, temp_root: Seq<char>, format: ArchiveFormat, posix: bool) -> Seq<
    StageStep,
> {
    let root = staging_root(temp_root, m.name@);
    let app_dir = join_path(root, m.name@);
    seq![
        StageStep::EnsureDir(m.output_folder@),
        StageStep::RemoveTree(root),
        StageStep::CreateDir(root),
        StageStep::CreateDir(app_dir),
    ] + flat_copies(copy_pairs(m), app_dir, posix) + seq![
        StageStep::RestrictWrite(root),
        StageStep::Archive(format, root, artifact_path(m, archive_suffix(format))),
        StageStep::RemoveTree(root),
    ]
}

fn push_op(ops: &mut Vec<StageOp>, op: StageOp)
    ensures
        final(ops)@ == old(ops)@.push(op),
        steps_of(final(ops)@) == steps_of(old(ops)@).push(op@),
{
    let ghost before = ops@;
    ops.push(op);
    assert(steps_of(ops@) =~= steps_of(before).push(op@));
}

/// The steps of a packaging run that writes the archive `format` of the plan
/// `m`, staging under `temp_root`; `posix` says whether file modes apply.
pub fn flat_layout(m: &Manifest, temp_root: &str, format: ArchiveFormat, posix: bool) -> (r: Vec<StageOp>)
    ensures
        steps_of(r@) == flat_plan(*m, temp_root@, format, posix),
{
    proof {
        reveal_strlit("emerge-");
    }
    let root = join(temp_root, join2("emerge-", m.name.as_str()).as_str());
    let app_dir = join(root.as_str(), m.name.as_str());
    let mut ops: Vec<StageOp> = Vec::new();
    push_op(&mut ops, StageOp::EnsureDir(m.output_folder.clone()));
    push_op(&mut ops, StageOp::RemoveTree(root.clone()));
    push_op(&mut ops, StageOp::CreateDir(root.clone()));
    push_op(&mut ops, StageOp::CreateDir(app_dir.clone()));
    let ghost head = steps_of(ops@);
    let ghost pairs = copy_pairs(*m);
    assert(flat_copies(pairs.subrange(0, 0), app_dir@, posix) =~= Seq::<StageStep>::empty());
    assert(steps_of(ops@) =~= head + flat_copies(pairs.subrange(0, 0), app_dir@, posix));
    let n = m.copy_operations.len();
    let mut i: usize = 0;
    while i < n
        invariant
            n == pairs.len(),
            pairs == copy_pairs(*m),
            i <= n,
            steps_of(ops@) == head + flat_copies(pairs.subrange(0, i as int), app_dir@, posix),
        decreases n - i,
    {
        let pair = &m.copy_operations[i];
        let dest = join(app_dir.as_str(), pair.1.as_str());
        let executable = posix && !is_documentation(pair.1.as_str());
        push_op(&mut ops, StageOp::Copy { source: pair.0.clone(), destination: dest.clone() });
        if executable {
            push_op(&mut ops, StageOp::MakeExecutable { path: dest, every_file: false });
        }
        proof {
            let next = pairs.subrange(0, i + 1);
            assert(next.drop_last() =~= pairs.subrange(0, i as int));
            assert(next.last() == pairs[i as int]);
            assert(steps_of(ops@) =~= head + flat_copies(next, app_dir@, posix));
        }
        i = i + 1;
    }
    assert(pairs.subrange(0, n as int) =~= pairs);
    let suffix = match format {
        ArchiveFormat::TarGz => ".tar.gz",
        ArchiveFormat::Zip => ".zip",
    };
    let output = join(m.output_folder.as_str(), join2(m.filename.as_str(), suffix).as_str());
    push_op(&mut ops, StageOp::RestrictWrite(root.clone()));
    push_op(&mut ops, StageOp::Archive { format, source: root.clone(), output });
    push_op(&mut ops, StageOp::RemoveTree(root));
    assert(steps_of(ops@) =~= flat_plan(*m, temp_root@, format, posix));
    ops
}

/// Text of the bundle description before the executable name.
pub const PLIST_HEAD: &'static str = "<?xml version=\"1.0\" encoding=\"UTF-8\"?>\n<!DOCTYPE plist PUBLIC \"-//Apple//DTD PLIST 1.0//EN\" \"http://www.apple.com/DTDs/PropertyList-1.0.dtd\">\n<plist version=\"1.0\">\n<dict>\n    <key>CFBundleDevelopmentRegion</key>\n    <string>en</string>\n    <key>CFBundleExecutable</key>\n    <string>";

/// Between the executable name and the bundle identifier.
pub const PLIST_IDENT: &'static str = "</string>\n    <key>CFBundleIdentifier</key>\n    <string>com.";

/// Between the bundle identifier and the bundle name.
pub const PLIST_NAME: &'static str = "</string>\n    <key>CFBundleInfoDictionaryVersion</key>\n    <string>6.0</string>\n    <key>CFBundleName</key>\n    <string>";

/// Between the bundle name and the display name.
pub const PLIST_DISPLAY: &'static str = "</string>\n    <key>CFBundleDisplayName</key>\n    <string>";

/// Between the display name and the short version.
pub const PLIST_SHORT_VERSION: &'static str = "</string>\n    <key>CFBundlePackageType</key>\n    <string>APPL</string>\n    <key>CFBundleShortVersionString</key>\n    <string>";

/// Between the short version and the build version.
pub const PLIST_VERSION: &'static str = "</string>\n    <key>CFBundleVersion</key>\n    <string>";

/// After the build version: the fixed minimum system version and icon file.
pub const PLIST_TAIL: &'static str = "</string>\n    <key>LSMinimumSystemVersion</key>\n    <string>10.13</string>\n    <key>NSHighResolutionCapable</key>\n    <true/>\n    <key>CFBundleIconFile</key>\n    <string>icon.icns</string>\n</dict>\n</plist>\n";

/// The bundle description of a plan: `name` is the executable and makes the
/// identifier `com.<name>.<name>`, `title` is the bundle and display name, and
/// `version` is both the short and the build version.
pub open spec fn info_plist_text(name: Seq<char>, title: Seq<char>, version: Seq<char>) -> Seq<char> {
    PLIST_HEAD@ + name + PLIST_IDENT@ + name + "."@ + name + PLIST_NAME@ + title + PLIST_DISPLAY@
        + title + PLIST_SHORT_VERSION@ + version + PLIST_VERSION@ + version + PLIST_TAIL@
}

/// The bundle description (`Info.plist`) of the plan `m`.
pub fn info_plist(m: &Manifest) -> (r: String)
    ensures
        r@ == info_plist_text(m.name@, m.title@, m.version@),
{
    let mut s = String::from_str(PLIST_HEAD);
    s.append(m.name.as_str());
    s.append(PLIST_IDENT);
    s.append(m.name.as_str());
    s.append(".");
    s.append(m.name.as_str());
    s.append(PLIST_NAME);
    s.append(m.title.as_str());
    s.append(PLIST_DISPLAY);
    s.append(m.title.as_str());
    s.append(PLIST_SHORT_VERSION);
    s.append(m.version.as_str());
    s.append(PLIST_VERSION);
    s.append(m.version.as_str());
    s.append(PLIST_TAIL);
    s
}

/// Where a copied file lands in the bundle layout: documentation beside the
/// bundle at the staging root, everything else in the bundle's `MacOS` folder.
pub open spec fn bundle_destination(dst: Seq<char>, root: Seq<char>, macos_dir: Seq<char>) -> Seq<char> {
    if is_documentation_path(dst) {
        join_path(root, dst)
    } else {
        join_path(macos_dir, dst)
    }
}

/// Steps for one copy operation in the bundle layout; what lands in `MacOS`
/// becomes executable.
pub open spec fn bundle_copy_steps(src: Seq<char>, dst: Seq<char>, root: Seq<char>, macos_dir: Seq<char>) -> Seq<
    StageStep,
> {
    let d = bundle_destination(dst, root, macos_dir);
    if is_documentation_path(dst) {
        seq![StageStep::Copy(src, d)]
    } else {
        seq![StageStep::Copy(src, d), StageStep::MakeExecutable(d, true)]
    }
}

/// Steps for the copy operations `ops`, in order, in the bundle layout.
pub open spec fn bundle_copies(ops: Seq<(Seq<char>, Seq<char>)>, root: Seq<char>, macos_dir: Seq<char>) -> Seq<
    StageStep,
>
    decreases ops.len(),
{
    if ops.len() == 0 {
        Seq::empty()
    } else {
        bundle_copies(ops.drop_last(), root, macos_dir) + bundle_copy_steps(
            ops.last().0,
            ops.last().1,
            root,
            macos_dir,
        )
    }
}

/// The bundle directory `<title>.app` under the staging root.
pub open spec fn bundle_dir(root: Seq<char>, title: Seq<char>) -> Seq<char> {
    join_path(root, title + ".app"@)
}

/// The step that puts the icon into the bundle's resources: an icon
/// container is copied as it is, any other image is converted.
pub open spec fn icon_steps(icon: Option<String>, resources: Seq<char>) -> Seq<StageStep> {
    match icon {
        Some(i) => if extension(i@) == Some("icns"@) {
            seq![StageStep::CopyFile(i@, join_path(resources, "icon.icns"@))]
        } else {
            seq![StageStep::ConvertIcon(i@, join_path(resources, "icon.icns"@))]
        },
        None => Seq::empty(),
    }
}

/// The whole run for a disk image: make the output folder, wipe and recreate
/// the staging root, lay out `<title>.app/Contents/{MacOS,Resources}` with its
/// description and icon, copy, link `Applications`, build the image, clean up.
pub open spec fn bundle_plan(m: Manifest, temp_root: Seq<char>) -> Seq<StageStep> {
    let root = staging_root(temp_root, m.name@);
    let contents = join_path(bundle_dir(root, m.title@), "Contents"@);
    let macos_dir = join_path(contents, "MacOS"@);
    let resources = join_path(contents, "Resources"@);
    let image = artifact_path(m, ".dmg"@);
    seq![
        StageStep::EnsureDir(m.output_folder@),
        StageStep::RemoveTree(root),
        StageStep::CreateDir(root),
        StageStep::CreateDir(macos_dir),
        StageStep::CreateDir(resources),
        StageStep::WriteFile(
            join_path(contents, "Info.plist"@),
            info_plist_text(m.name@, m.title@, m.version@),
        ),
    ] + icon_steps(m.icon, resources) + bundle_copies(copy_pairs(m), root, macos_dir) + seq![
        StageStep::RestrictWrite(root),
        StageStep::Symlink(join_path(root, "Applications"@), "/Applications"@),
        StageStep::RemoveFile(image),
        StageStep::DiskImage(root, image),
        StageStep::RemoveTree(root),
    ]
}

/// The steps of a packaging run that writes a disk image of the plan `m`,
/// staging under `temp_root`.
pub fn bundle_layout(m: &Manifest, temp_root: &str) -> (r: Vec<StageOp>)
    ensures
        steps_of(r@) == bundle_plan(*m, temp_root@),
{
    let root = join(temp_root, join2("emerge-", m.name.as_str()).as_str());
    let app = join(root.as_str(), join2(m.title.as_str(), ".app").as_str());
    let contents = join(app.as_str(), "Contents");
    let macos_dir = join(contents.as_str(), "MacOS");
    let resources = join(contents.as_str(), "Resources");
    let mut ops: Vec<StageOp> = Vec::new();
    push_op(&mut ops, StageOp::EnsureDir(m.output_folder.clone()));
    push_op(&mut ops, StageOp::RemoveTree(root.clone()));
    push_op(&mut ops, StageOp::CreateDir(root.clone()));
    push_op(&mut ops, StageOp::CreateDir(macos_dir.clone()));
    push_op(&mut ops, StageOp::CreateDir(resources.clone()));
    push_op(
        &mut ops,
        StageOp::WriteFile { path: join(contents.as_str(), "Info.plist"), contents: info_plist(m) },
    );
    if let Some(icon) = &m.icon {
        let target = join(resources.as_str(), "icon.icns");
        let verbatim = match extension_of(icon.as_str()) {
            Some(e) => same_text(e.as_str(), "icns"),
            None => false,
        };
        if verbatim {
            push_op(&mut ops, StageOp::CopyFile { source: icon.clone(), destination: target });
        } else {
            push_op(&mut ops, StageOp::ConvertIcon { source: icon.clone(), destination: target });
        }
    }
    let ghost head = steps_of(ops@);
    let ghost pairs = copy_pairs(*m);
    assert(bundle_copies(pairs.subrange(0, 0), root@, macos_dir@) =~= Seq::<StageStep>::empty());
    assert(steps_of(ops@) =~= head + bundle_copies(pairs.subrange(0, 0), root@, macos_dir@));
    let n = m.copy_operations.len();
    let mut i: usize = 0;
    while i < n
        invariant
            n == pairs.len(),
            pairs == copy_pairs(*m),
            i <= n,
            steps_of(ops@) == head + bundle_copies(pairs.subrange(0, i as int), root@, macos_dir@),
        decreases n - i,
    {
        let pair = &m.copy_operations[i];
        if is_documentation(pair.1.as_str()) {
            let dest = join(root.as_str(), pair.1.as_str());
            push_op(&mut ops, StageOp::Copy { source: pair.0.clone(), destination: dest });
        } else {
            let dest = join(macos_dir.as_str(), pair.1.as_str());
            push_op(&mut ops, StageOp::Copy { source: pair.0.clone(), destination: dest.clone() });
            push_op(&mut ops, StageOp::MakeExecutable { path: dest, every_file: true });
        }
        proof {
            let next = pairs.subrange(0, i + 1);
            assert(next.drop_last() =~= pairs.subrange(0, i as int));
            assert(next.last() == pairs[i as int]);
            assert(steps_of(ops@) =~= head + bundle_copies(next, root@, macos_dir@));
        }
        i = i + 1;
    }
    assert(pairs.subrange(0, n as int) =~= pairs);
    let image = join(m.output_folder.as_str(), join2(m.filename.as_str(), ".dmg").as_str());
    push_op(&mut ops, StageOp::RestrictWrite(root.clone()));
    push_op(
        &mut ops,
        StageOp::Symlink {
            link: join(root.as_str(), "Applications"),
            target: String::from_str("/Applications"),
        },
    );
    push_op(&mut ops, StageOp::RemoveFile(image.clone()));
    push_op(&mut ops, StageOp::DiskImage { staging: root.clone(), output: image });
    push_op(&mut ops, StageOp::RemoveTree(root));
    assert(steps_of(ops@) =~= bundle_plan(*m, temp_root@));
    ops
}

/// Whether a step leaves the staging tree and touches the artifact.
pub open spec fn touches_artifact(s: StageStep) -> bool {
    s is Archive || s is DiskImage || s is RemoveFile
}

proof fn lemma_flat_copies_stage_only(ops: Seq<(Seq<char>, Seq<char>)>, app_dir: Seq<char>, posix: bool)
    ensures
        forall|i: int|
            0 <= i < flat_copies(ops, app_dir, posix).len() ==> !touches_artifact(
                #[trigger] flat_copies(ops, app_dir, posix)[i],
            ),
    decreases ops.len(),
{
    if ops.len() > 0 {
        lemma_flat_copies_stage_only(ops.drop_last(), app_dir, posix);
        let a = flat_copies(ops.drop_last(), app_dir, posix);
        let b = flat_copy_steps(ops.last().0, ops.last().1, app_dir, posix);
        assert forall|i: int| 0 <= i < (a + b).len() implies !touches_artifact(#[trigger] (a + b)[i]) by {
            if i < a.len() {
                assert((a + b)[i] == a[i]);
            } else {
                assert((a + b)[i] == b[i - a.len()]);
            }
        }
    }
}

proof fn lemma_bundle_copies_stage_only(ops: Seq<(Seq<char>, Seq<char>)>, root: Seq<char>, macos_dir: Seq<char>)
    ensures
        forall|i: int|
            0 <= i < bundle_copies(ops, root, macos_dir).len() ==> !touches_artifact(
                #[trigger] bundle_copies(ops, root, macos_dir)[i],
            ),
    decreases ops.len(),
{
    if ops.len() > 0 {
        lemma_bundle_copies_stage_only(ops.drop_last(), root, macos_dir);
        let a = bundle_copies(ops.drop_last(), root, macos_dir);
        let b = bundle_copy_steps(ops.last().0, ops.last().1, root, macos_dir);
        assert forall|i: int| 0 <= i < (a + b).len() implies !touches_artifact(#[trigger] (a + b)[i]) by {
            if i < a.len() {
                assert((a + b)[i] == a[i]);
            } else {
                assert((a + b)[i] == b[i - a.len()]);
            }
        }
    }
}

/// A run starts by wiping the staging root and creating it afresh, so a
/// second run on an unchanged plan rebuilds the same tree instead of adding
/// to the first one's.
pub proof fn lemma_staging_starts_clean(m: Manifest, temp_root: Seq<char>, format: ArchiveFormat, posix: bool)
    ensures
        flat_plan(m, temp_root, format, posix)[1] == StageStep::RemoveTree(
            staging_root(temp_root, m.name@),
        ),
        flat_plan(m, temp_root, format, posix)[2] == StageStep::CreateDir(
            staging_root(temp_root, m.name@),
        ),
        bundle_plan(m, temp_root)[1] == StageStep::RemoveTree(staging_root(temp_root, m.name@)),
        bundle_plan(m, temp_root)[2] == StageStep::CreateDir(staging_root(temp_root, m.name@)),
{
}

/// Every copy (and every icon conversion) comes before the first step that
/// touches the artifact, so a failing copy ends the run with no archive or
/// image written.
pub proof fn lemma_copies_before_artifact(m: Manifest, temp_root: Seq<char>, format: ArchiveFormat, posix: bool)
    ensures
        ({
            let p = flat_plan(m, temp_root, format, posix);
            &&& p[p.len() - 2] is Archive
            &&& forall|i: int| 0 <= i < p.len() - 2 ==> !touches_artifact(#[trigger] p[i])
            &&& forall|i: int| p.len() - 2 <= i < p.len() ==> !(#[trigger] p[i] is Copy)
        }),
        ({
            let p = bundle_plan(m, temp_root);
            &&& p[p.len() - 2] is DiskImage
            &&& forall|i: int| 0 <= i < p.len() - 3 ==> !touches_artifact(#[trigger] p[i])
            &&& forall|i: int|
                p.len() - 3 <= i < p.len() ==> !(#[trigger] p[i] is Copy) && !(p[i] is ConvertIcon)
        }),
{
    let root = staging_root(temp_root, m.name@);
    let app_dir = join_path(root, m.name@);
    lemma_flat_copies_stage_only(copy_pairs(m), app_dir, posix);
    let p = flat_plan(m, temp_root, format, posix);
    let fc = flat_copies(copy_pairs(m), app_dir, posix);
    let ftail = seq![
        StageStep::RestrictWrite(root),
        StageStep::Archive(format, root, artifact_path(m, archive_suffix(format))),
        StageStep::RemoveTree(root),
    ];
    let fhead = seq![
        StageStep::EnsureDir(m.output_folder@),
        StageStep::RemoveTree(root),
        StageStep::CreateDir(root),
        StageStep::CreateDir(app_dir),
    ];
    assert(p == fhead + fc + ftail);
    assert(fhead.len() == 4);
    assert forall|i: int| 0 <= i < p.len() - 2 implies !touches_artifact(#[trigger] p[i]) by {
        if 4 <= i < 4 + fc.len() {
            assert(p[i] == fc[i - 4]);
        } else if i >= 4 + fc.len() {
            assert(p[i] == ftail[i - 4 - fc.len()]);
        }
    }
    assert(p[p.len() - 2] == ftail[1]);
    assert forall|i: int| p.len() - 2 <= i < p.len() implies !(#[trigger] p[i] is Copy) by {
        assert(p[i] == ftail[i - 4 - fc.len()]);
    }
    let contents = join_path(bundle_dir(root, m.title@), "Contents"@);
    let macos_dir = join_path(contents, "MacOS"@);
    let resources = join_path(contents, "Resources"@);
    lemma_bundle_copies_stage_only(copy_pairs(m), root, macos_dir);
    let q = bundle_plan(m, temp_root);
    let ic = icon_steps(m.icon, resources);
    let bc = bundle_copies(copy_pairs(m), root, macos_dir);
    let image = artifact_path(m, ".dmg"@);
    let tail = seq![
        StageStep::RestrictWrite(root),
        StageStep::Symlink(join_path(root, "Applications"@), "/Applications"@),
        StageStep::RemoveFile(image),
        StageStep::DiskImage(root, image),
        StageStep::RemoveTree(root),
    ];
    let front = seq![
        StageStep::EnsureDir(m.output_folder@),
        StageStep::RemoveTree(root),
        StageStep::CreateDir(root),
        StageStep::CreateDir(macos_dir),
        StageStep::CreateDir(resources),
        StageStep::WriteFile(
            join_path(contents, "Info.plist"@),
            info_plist_text(m.name@, m.title@, m.version@),
        ),
    ];
    assert(q == front + ic + bc + tail);
    let body = front + ic + bc;
    assert(front.len() == 6);
    assert(body.len() == 6 + ic.len() + bc.len());
    assert(q.len() == body.len() + 5);
    assert forall|i: int| 0 <= i < q.len() - 3 implies !touches_artifact(#[trigger] q[i]) by {
        if i >= body.len() {
            assert(q[i] == tail[i - body.len()]);
        } else {
            assert(q[i] == body[i]);
            if 6 <= i < 6 + ic.len() {
                assert(body[i] == (front + ic)[i]);
                assert((front + ic)[i] == ic[i - 6]);
            } else if i >= 6 + ic.len() {
                assert(body[i] == bc[i - 6 - ic.len()]);
            }
        }
    }
    assert(q[body.len() + 3int] == tail[3]);
    assert forall|i: int| q.len() - 3 <= i < q.len() implies !(#[trigger] q[i] is Copy) && !(
    q[i] is ConvertIcon) by {
        assert(q[i] == tail[i - body.len()]);
    }
}

} // verus!
