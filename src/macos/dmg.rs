//! The disk-image driver: the Finder layout script, the reading of the mount
//! tool's output, and the step machine that creates, mounts, arranges,
//! unmounts and compresses the image.

use vstd::prelude::*;
use crate::context::Context;
use crate::error::Error;
use crate::manifest::{DmgConfig, Manifest};
use crate::paths::{join, join_path};
use crate::staging::{bundle_dir, bundle_layout, bundle_plan, staging_root, steps_of, StageOp};
use crate::text::{chars_of, contains, decimal, decimal_text, join2, matches_at, occurs_at};

verus! {

/// The steps that stage the plan `m` under `temp_root` as an application
/// bundle and build `<output_folder>/<filename>.dmg` from it.
pub fn create(ctx: &Context, manifest: &Manifest, temp_root: &str) -> (r: Vec<StageOp>)
    ensures
        steps_of(r@) == bundle_plan(*manifest, temp_root@),
{
    bundle_layout(manifest, temp_root)
}

/// Window origin used when the layout gives none.
pub const DEFAULT_WINDOW_POSITION: (i32, i32) = (100, 100);

/// Window size used when the layout gives none.
pub const DEFAULT_WINDOW_SIZE: (i32, i32) = (600, 400);

/// Application icon position used when the layout gives none.
pub const DEFAULT_APP_POSITION: (i32, i32) = (150, 200);

/// `Applications` link position used when the layout gives none.
pub const DEFAULT_APPLICATIONS_POSITION: (i32, i32) = (450, 200);

/// The value of an optional position, or `default`.
pub open spec fn pos_or(p: Option<(i32, i32)>, default: (i32, i32)) -> (i32, i32) {
    match p {
        Some(v) => v,
        None => default,
    }
}

/// The configured window origin.
pub open spec fn window_position_of(dmg: Option<DmgConfig>) -> (i32, i32) {
    match dmg {
        Some(d) => pos_or(d.window_position, DEFAULT_WINDOW_POSITION),
        None => DEFAULT_WINDOW_POSITION,
    }
}

/// The configured window size.
pub open spec fn window_size_of(dmg: Option<DmgConfig>) -> (i32, i32) {
    match dmg {
        Some(d) => pos_or(d.window_size, DEFAULT_WINDOW_SIZE),
        None => DEFAULT_WINDOW_SIZE,
    }
}

/// The configured application icon position.
pub open spec fn app_position_of(dmg: Option<DmgConfig>) -> (i32, i32) {
    match dmg {
        Some(d) => pos_or(d.app_position, DEFAULT_APP_POSITION),
        None => DEFAULT_APP_POSITION,
    }
}

/// The configured `Applications` link position.
pub open spec fn applications_position_of(dmg: Option<DmgConfig>) -> (i32, i32) {
    match dmg {
        Some(d) => pos_or(d.applications_position, DEFAULT_APPLICATIONS_POSITION),
        None => DEFAULT_APPLICATIONS_POSITION,
    }
}

/// The window bounds: left, top, right and bottom.
pub open spec fn bounds_of(dmg: Option<DmgConfig>) -> (int, int, int, int) {
    let p = window_position_of(dmg);
    let s = window_size_of(dmg);
    (p.0 as int, p.1 as int, p.0 + s.0, p.1 + s.1)
}

/// Whether the layout names a background image.
pub open spec fn has_background(dmg: Option<DmgConfig>) -> bool {
    match dmg {
        Some(d) => d.background is Some,
        None => false,
    }
}

/// Opening of the layout script, up to the volume name.
pub const SCRIPT_OPEN: &'static str = "\n        tell application \"Finder\"\n            tell disk \"";

/// From the volume name to the window bounds.
pub const SCRIPT_VIEW: &'static str = "\"\n                open\n                set current view of container window to icon view\n                set toolbar visible of container window to false\n                set statusbar visible of container window to false\n                set the bounds of container window to {";

/// Between two numbers of a list.
pub const SCRIPT_SEP: &'static str = ", ";

/// From the bounds to the background line.
pub const SCRIPT_OPTIONS: &'static str = "}\n                set viewOptions to the icon view options of container window\n                set arrangement of viewOptions to not arranged\n                set icon size of viewOptions to 72\n                ";

/// The background line, present when the layout names a background.
pub const SCRIPT_BACKGROUND: &'static str = "set background picture of viewOptions to file \".background:background.png\"";

/// From the background line to the application name.
pub const SCRIPT_APP: &'static str = "\n                set position of item \"";

/// From the application name to its position.
pub const SCRIPT_APP_AT: &'static str = ".app\" to {";

/// From the application position to the link position.
pub const SCRIPT_LINK_AT: &'static str = "}\n                set position of item \"Applications\" to {";

/// The close of the script: reopen the window so the layout is kept, then
/// give the Finder time to store it.
pub const SCRIPT_CLOSE: &'static str = "}\n                close\n                open\n                update without registering applications\n                delay 2\n            end tell\n        end tell\n    ";

/// `{a, b}` without the braces.
pub open spec fn pair_text(a: int, b: int) -> Seq<char> {
    decimal(a) + SCRIPT_SEP@ + decimal(b)
}

/// The Finder script that arranges the window of the mounted volume `title`.
pub open spec fn layout_script(title: Seq<char>, dmg: Option<DmgConfig>) -> Seq<char> {
    let b = bounds_of(dmg);
    let a = app_position_of(dmg);
    let l = applications_position_of(dmg);
    SCRIPT_OPEN@ + title + SCRIPT_VIEW@ + pair_text(b.0, b.1) + SCRIPT_SEP@ + pair_text(b.2, b.3)
        + SCRIPT_OPTIONS@ + (if has_background(dmg) {
        SCRIPT_BACKGROUND@
    } else {
        ""@
    }) + SCRIPT_APP@ + title + SCRIPT_APP_AT@ + pair_text(a.0 as int, a.1 as int) + SCRIPT_LINK_AT@
        + pair_text(l.0 as int, l.1 as int) + SCRIPT_CLOSE@
}

/// With an explicit window origin `(x, y)` and size `(w, h)` the window
/// bounds are exactly `(x, y, x + w, y + h)`, and the layout script sets the
/// window to them.
pub proof fn lemma_explicit_window_bounds(title: Seq<char>, d: DmgConfig, x: i32, y: i32, w: i32, h: i32)
    requires
        d.window_position == Some((x, y)),
        d.window_size == Some((w, h)),
    ensures
        bounds_of(Some(d)) == (x as int, y as int, x + w, y + h),
        contains(
            layout_script(title, Some(d)),
            SCRIPT_VIEW@ + pair_text(x as int, y as int) + SCRIPT_SEP@ + pair_text(x + w, y + h),
        ),
{
    let s = layout_script(title, Some(d));
    let pat = SCRIPT_VIEW@ + pair_text(x as int, y as int) + SCRIPT_SEP@ + pair_text(x + w, y + h);
    let head = SCRIPT_OPEN@ + title;
    let b = bounds_of(Some(d));
    let a = app_position_of(Some(d));
    let l = applications_position_of(Some(d));
    let rest = SCRIPT_OPTIONS@ + (if has_background(Some(d)) {
        SCRIPT_BACKGROUND@
    } else {
        ""@
    }) + SCRIPT_APP@ + title + SCRIPT_APP_AT@ + pair_text(a.0 as int, a.1 as int) + SCRIPT_LINK_AT@
        + pair_text(l.0 as int, l.1 as int) + SCRIPT_CLOSE@;
    assert(s =~= head + pat + rest);
    assert((head + pat + rest).subrange(head.len() as int, (head.len() + pat.len()) as int) =~= pat);
    assert(occurs_at(s, pat, head.len() as int));
}

/// The window bounds of a layout: origin, then origin plus size.
pub fn window_bounds(dmg: &Option<DmgConfig>) -> (r: (i64, i64, i64, i64))
    ensures
        (r.0 as int, r.1 as int, r.2 as int, r.3 as int) == bounds_of(*dmg),
{
    let (p, s) = match dmg {
        Some(d) => (
            match d.window_position {
                Some(v) => v,
                None => DEFAULT_WINDOW_POSITION,
            },
            match d.window_size {
                Some(v) => v,
                None => DEFAULT_WINDOW_SIZE,
            },
        ),
        None => (DEFAULT_WINDOW_POSITION, DEFAULT_WINDOW_SIZE),
    };
    (p.0 as i64, p.1 as i64, p.0 as i64 + s.0 as i64, p.1 as i64 + s.1 as i64)
}

fn append_pair(s: &mut String, a: i64, b: i64)
    ensures
        final(s)@ == old(s)@ + pair_text(a as int, b as int),
{
    s.append(decimal_text(a).as_str());
    s.append(SCRIPT_SEP);
    s.append(decimal_text(b).as_str());
}

/// The Finder script for the plan `m`.
pub fn layout_script_for(m: &Manifest) -> (r: String)
    ensures
        r@ == layout_script(m.title@, m.dmg),
{
    let b = window_bounds(&m.dmg);
    let (a, l, background) = match &m.dmg {
        Some(d) => (
            match d.app_position {
                Some(v) => v,
                None => DEFAULT_APP_POSITION,
            },
            match d.applications_position {
                Some(v) => v,
                None => DEFAULT_APPLICATIONS_POSITION,
            },
            d.background.is_some(),
        ),
        None => (DEFAULT_APP_POSITION, DEFAULT_APPLICATIONS_POSITION, false),
    };
    let mut s = String::from_str(SCRIPT_OPEN);
    s.append(m.title.as_str());
    s.append(SCRIPT_VIEW);
    append_pair(&mut s, b.0, b.1);
    s.append(SCRIPT_SEP);
    append_pair(&mut s, b.2, b.3);
    s.append(SCRIPT_OPTIONS);
    if background {
        s.append(SCRIPT_BACKGROUND);
    } else {
        s.append("");
    }
    s.append(SCRIPT_APP);
    s.append(m.title.as_str());
    s.append(SCRIPT_APP_AT);
    append_pair(&mut s, a.0 as i64, a.1 as i64);
    s.append(SCRIPT_LINK_AT);
    append_pair(&mut s, l.0 as i64, l.1 as i64);
    s.append(SCRIPT_CLOSE);
    s
}

/// The directory under which the mount tool places mounted volumes.
pub const VOLUMES_MARKER: &'static str = "/Volumes/";

/// The first index at or after `i` where `pat` occurs in `t`, or -1.
pub open spec fn first_match_from(t: Seq<char>, pat: Seq<char>, i: int) -> int
    decreases t.len() - i,
{
    if i < 0 || i + pat.len() > t.len() {
        -1
    } else if pat.len() == 0 || occurs_at(t, pat, i) {
        i
    } else {
        first_match_from(t, pat, i + 1)
    }
}

/// The index of the line break that ends the line holding index `i`, or the
/// length of `t` on the last line.
pub open spec fn line_end(t: Seq<char>, i: int) -> int
    decreases t.len() - i,
{
    if i < 0 || i >= t.len() || t[i] == '\n' {
        if i < 0 { t.len() as int } else if i >= t.len() { t.len() as int } else { i }
    } else {
        line_end(t, i + 1)
    }
}

/// `s` without one trailing carriage return.
pub open spec fn strip_cr(s: Seq<char>) -> Seq<char> {
    if s.len() > 0 && s.last() == '\r' {
        s.drop_last()
    } else {
        s
    }
}

/// The mount path that the mount tool reports in `output`: on the first line
/// that names a path under the volumes directory, everything from that path
/// to the end of the line, spaces included.
pub open spec fn mount_point_of(output: Seq<char>) -> Option<Seq<char>> {
    let i = first_match_from(output, VOLUMES_MARKER@, 0);
    if i < 0 {
        None
    } else {
        Some(strip_cr(output.subrange(i, line_end(output, i))))
    }
}

/// Reads the mount path out of the mount tool's output, as
/// [`mount_point_of`] says.
pub fn parse_mount_point(output: &str) -> (r: Option<String>)
    ensures
        match r {
            Some(s) => mount_point_of(output@) == Some(s@),
            None => mount_point_of(output@) is None,
        },
{
    let t = chars_of(output);
    let marker = chars_of(VOLUMES_MARKER);
    proof {
        reveal_strlit("/Volumes/");
    }
    let n = t.len();
    let m = marker.len();
    let mut i: usize = 0;
    let mut found = false;
    while m <= n - i && !found
        invariant
            t@ == output@,
            marker@ == VOLUMES_MARKER@,
            n == t@.len(),
            m == marker@.len(),
            m == 9,
            i <= n,
            found ==> first_match_from(t@, marker@, 0) == i && i + m <= n,
            !found ==> first_match_from(t@, marker@, 0) == first_match_from(t@, marker@, i as int),
        decreases n - i + (if found { 0int } else { 1int }),
    {
        if matches_at(&t, &marker, i) {
            found = true;
        } else {
            i = i + 1;
        }
    }
    if !found {
        return None;
    }
    let mut e: usize = i;
    while e < n && t[e] != '\n'
        invariant
            t@ == output@,
            n == t@.len(),
            i <= e <= n,
            line_end(t@, i as int) == line_end(t@, e as int),
        decreases n - e,
    {
        e = e + 1;
    }
    let end = if e > i && t[e - 1] == '\r' {
        e - 1
    } else {
        e
    };
    let line = output.substring_char(i, end);
    proof {
        let whole = t@.subrange(i as int, e as int);
        if e > i && t@[e - 1] == '\r' {
            assert(whole.last() == '\r');
            assert(whole.drop_last() =~= t@.subrange(i as int, end as int));
        }
    }
    Some(String::from_str(line))
}

/// What the driver needs to know of a run, resolved up front.
pub struct DmgPlan {
    /// Volume name.
    pub title: String,
    /// The staging tree the image is made from.
    pub staging: String,
    /// The writable intermediate image.
    pub temp_image: String,
    /// The compressed read-only image.
    pub output_image: String,
    /// The background image to copy onto the volume, if any.
    pub background: Option<String>,
    /// The Finder layout script.
    pub script: String,
    /// The icon container that becomes the volume icon, if any.
    pub volume_icon: Option<String>,
}

/// The plan of the disk-image driver for the plan `m`, whose tree was staged
/// under `temp_root`.
pub open spec fn dmg_plan_spec(base: Seq<char>, m: Manifest, temp_root: Seq<char>, p: DmgPlan) -> bool {
    let root = staging_root(temp_root, m.name@);
    &&& p.title@ == m.title@
    &&& p.staging@ == root
    &&& p.temp_image@ == join_path(m.output_folder@, m.filename@ + ".temp.dmg"@)
    &&& p.output_image@ == join_path(m.output_folder@, m.filename@ + ".dmg"@)
    &&& p.script@ == layout_script(m.title@, m.dmg)
    &&& match m.dmg {
        Some(d) => match d.background {
            Some(b) => p.background matches Some(pb) && pb@ == join_path(base, b@),
            None => p.background is None,
        },
        None => p.background is None,
    }
    &&& match m.icon {
        Some(_) => p.volume_icon matches Some(v) && v@ == join_path(
            join_path(join_path(bundle_dir(root, m.title@), "Contents"@), "Resources"@),
            "icon.icns"@,
        ),
        None => p.volume_icon is None,
    }
}

/// Resolves the driver's plan for `m`; relative background paths are taken
/// from the base directory.
pub fn dmg_plan(ctx: &Context, m: &Manifest, temp_root: &str) -> (r: DmgPlan)
    ensures
        dmg_plan_spec(ctx.base_dir@, *m, temp_root@, r),
{
    let root = join(temp_root, join2("emerge-", m.name.as_str()).as_str());
    let background = match &m.dmg {
        Some(d) => match &d.background {
            Some(b) => Some(join(ctx.base_dir.as_str(), b.as_str())),
            None => None,
        },
        None => None,
    };
    let volume_icon = match &m.icon {
        Some(_) => {
            let app = join(root.as_str(), join2(m.title.as_str(), ".app").as_str());
            let contents = join(app.as_str(), "Contents");
            let resources = join(contents.as_str(), "Resources");
            Some(join(resources.as_str(), "icon.icns"))
        },
        None => None,
    };
    DmgPlan {
        title: m.title.clone(),
        staging: root,
        temp_image: join(m.output_folder.as_str(), join2(m.filename.as_str(), ".temp.dmg").as_str()),
        output_image: join(m.output_folder.as_str(), join2(m.filename.as_str(), ".dmg").as_str()),
        background,
        script: layout_script_for(m),
        volume_icon,
    }
}

/// The steps of the driver, in the order they run.
#[derive(Debug, Clone, Copy, PartialEq, Eq, Structural)]
pub enum DmgStage {
    Create,
    Attach,
    BackgroundDir,
    Background,
    WriteScript,
    RunScript,
    RemoveScript,
    Sync,
    Settle,
    Detach,
    Compress,
    IconAttach,
    IconCopy,
    IconMark,
    IconSync,
    IconSettle,
    IconDetach,
    Cleanup,
    Done,
    Failed,
}

/// What the driver asks its runner to do next.
#[derive(Debug)]
pub enum DmgAction {
    /// Run a tool to completion; report `Completed` or `Failed`.
    Run { program: String, args: Vec<String> },
    /// Run a tool and report its standard output as `Captured`.
    Capture { program: String, args: Vec<String> },
    /// Create a directory.
    CreateDir(String),
    /// Copy one file.
    CopyFile { source: String, destination: String },
    /// Write text to a file.
    WriteFile { path: String, contents: String },
    /// Delete a file.
    RemoveFile(String),
    /// Wait, so that the filesystem settles.
    Pause { millis: u64 },
    /// The image is complete.
    Finished,
    /// The run failed; nothing further is done.
    Abort(Error),
}

/// How the last action went.
#[derive(Debug)]
pub enum DmgEvent {
    Completed,
    Captured(String),
    Failed(Error),
}

/// An action as a value of text.
pub enum DmgActionView {
    Run(Seq<char>, Seq<Seq<char>>),
    Capture(Seq<char>, Seq<Seq<char>>),
    CreateDir(Seq<char>),
    CopyFile(Seq<char>, Seq<char>),
    WriteFile(Seq<char>, Seq<char>),
    RemoveFile(Seq<char>),
    Pause(u64),
    Finished,
    Abort(Error),
}

/// The texts of a list of strings.
pub open spec fn texts(v: Seq<String>) -> Seq<Seq<char>> {
    v.map_values(|s: String| s@)
}

impl View for DmgAction {
    type V = DmgActionView;

    open spec fn view(&self) -> DmgActionView {
        match self {
            DmgAction::Run { program, args } => DmgActionView::Run(program@, texts(args@)),
            DmgAction::Capture { program, args } => DmgActionView::Capture(program@, texts(args@)),
            DmgAction::CreateDir(p) => DmgActionView::CreateDir(p@),
            DmgAction::CopyFile { source, destination } => DmgActionView::CopyFile(
                source@,
                destination@,
            ),
            DmgAction::WriteFile { path, contents } => DmgActionView::WriteFile(path@, contents@),
            DmgAction::RemoveFile(p) => DmgActionView::RemoveFile(p@),
            DmgAction::Pause { millis } => DmgActionView::Pause(*millis),
            DmgAction::Finished => DmgActionView::Finished,
            DmgAction::Abort(e) => DmgActionView::Abort(*e),
        }
    }
}

/// The hidden folder on the volume that holds the background.
pub open spec fn background_dir(mount: Seq<char>) -> Seq<char> {
    join_path(mount, ".background"@)
}

/// Where the layout script is written on the volume.
pub open spec fn script_path(mount: Seq<char>) -> Seq<char> {
    join_path(mount, ".setup_script.applescript"@)
}

/// Milliseconds to wait after a sync before detaching.
pub const SETTLE_MILLIS: u64 = 500;

/// The action that starts the stage `s`, with `mount` the current mount path.
pub open spec fn action_of(p: DmgPlan, s: DmgStage, mount: Seq<char>) -> DmgActionView {
    match s {
        DmgStage::Create => DmgActionView::Run(
            "hdiutil"@,
            seq![
                "create"@,
                "-srcfolder"@,
                p.staging@,
                "-volname"@,
                p.title@,
                "-fs"@,
                "HFS+"@,
                "-fsargs"@,
                "-c c=64,a=16,e=16"@,
                "-format"@,
                "UDRW"@,
                p.temp_image@,
            ],
        ),
        DmgStage::Attach => DmgActionView::Capture(
            "hdiutil"@,
            seq!["attach"@, "-readwrite"@, "-noverify"@, "-noautoopen"@, p.temp_image@],
        ),
        DmgStage::BackgroundDir => DmgActionView::CreateDir(background_dir(mount)),
        DmgStage::Background => match p.background {
            Some(b) => DmgActionView::CopyFile(
                b@,
                join_path(background_dir(mount), "background.png"@),
            ),
            None => DmgActionView::Finished,
        },
        DmgStage::WriteScript => DmgActionView::WriteFile(script_path(mount), p.script@),
        DmgStage::RunScript => DmgActionView::Run("osascript"@, seq![script_path(mount)]),
        DmgStage::RemoveScript => DmgActionView::RemoveFile(script_path(mount)),
        DmgStage::Sync => DmgActionView::Run("sync"@, Seq::empty()),
        DmgStage::Settle => DmgActionView::Pause(SETTLE_MILLIS),
        DmgStage::Detach => DmgActionView::Run("hdiutil"@, seq!["detach"@, mount]),
        DmgStage::Compress => DmgActionView::Run(
            "hdiutil"@,
            seq![
                "convert"@,
                p.temp_image@,
                "-format"@,
                "UDZO"@,
                "-imagekey"@,
                "zlib-level=9"@,
                "-o"@,
                p.output_image@,
            ],
        ),
        DmgStage::IconAttach => DmgActionView::Capture(
            "hdiutil"@,
            seq!["attach"@, p.output_image@, "-readwrite"@, "-noverify"@, "-noautoopen"@],
        ),
        DmgStage::IconCopy => match p.volume_icon {
            Some(v) => DmgActionView::CopyFile(v@, join_path(mount, ".VolumeIcon.icns"@)),
            None => DmgActionView::Finished,
        },
        DmgStage::IconMark => DmgActionView::Run("SetFile"@, seq!["-a"@, "C"@, mount]),
        DmgStage::IconSync => DmgActionView::Run("sync"@, Seq::empty()),
        DmgStage::IconSettle => DmgActionView::Pause(SETTLE_MILLIS),
        DmgStage::IconDetach => DmgActionView::Run("hdiutil"@, seq!["detach"@, mount]),
        DmgStage::Cleanup => DmgActionView::RemoveFile(p.temp_image@),
        DmgStage::Done => DmgActionView::Finished,
        DmgStage::Failed => DmgActionView::Finished,
    }
}

/// The stage after `s` when `s` succeeded. The background stages are skipped
/// without a background, the volume-icon session without an icon.
pub open spec fn next_stage(p: DmgPlan, s: DmgStage) -> DmgStage {
    match s {
        DmgStage::Create => DmgStage::Attach,
        DmgStage::Attach => if p.background is Some {
            DmgStage::BackgroundDir
        } else {
            DmgStage::WriteScript
        },
        DmgStage::BackgroundDir => DmgStage::Background,
        DmgStage::Background => DmgStage::WriteScript,
        DmgStage::WriteScript => DmgStage::RunScript,
        DmgStage::RunScript => DmgStage::RemoveScript,
        DmgStage::RemoveScript => DmgStage::Sync,
        DmgStage::Sync => DmgStage::Settle,
        DmgStage::Settle => DmgStage::Detach,
        DmgStage::Detach => DmgStage::Compress,
        DmgStage::Compress => if p.volume_icon is Some {
            DmgStage::IconAttach
        } else {
            DmgStage::Cleanup
        },
        DmgStage::IconAttach => DmgStage::IconCopy,
        DmgStage::IconCopy => DmgStage::IconMark,
        DmgStage::IconMark => DmgStage::IconSync,
        DmgStage::IconSync => DmgStage::IconSettle,
        DmgStage::IconSettle => DmgStage::IconDetach,
        DmgStage::IconDetach => DmgStage::Cleanup,
        DmgStage::Cleanup => DmgStage::Done,
        DmgStage::Done => DmgStage::Done,
        DmgStage::Failed => DmgStage::Failed,
    }
}

/// The stages of a run in which every step succeeds, in order: each mount
/// session ends with the detach of that mount before anything is compressed
/// or mounted again, and the intermediate image is removed last.
pub open spec fn success_stages(p: DmgPlan) -> Seq<DmgStage> {
    seq![DmgStage::Create, DmgStage::Attach] + (if p.background is Some {
        seq![DmgStage::BackgroundDir, DmgStage::Background]
    } else {
        Seq::empty()
    }) + seq![
        DmgStage::WriteScript,
        DmgStage::RunScript,
        DmgStage::RemoveScript,
        DmgStage::Sync,
        DmgStage::Settle,
        DmgStage::Detach,
        DmgStage::Compress,
    ] + (if p.volume_icon is Some {
        seq![
            DmgStage::IconAttach,
            DmgStage::IconCopy,
            DmgStage::IconMark,
            DmgStage::IconSync,
            DmgStage::IconSettle,
            DmgStage::IconDetach,
        ]
    } else {
        Seq::empty()
    }) + seq![DmgStage::Cleanup, DmgStage::Done]
}

/// The `k` stages from `s` on when every step succeeds.
pub open spec fn stages_from(p: DmgPlan, s: DmgStage, k: nat) -> Seq<DmgStage>
    decreases k,
{
    if k == 0 {
        Seq::empty()
    } else {
        seq![s] + stages_from(p, next_stage(p, s), (k - 1) as nat)
    }
}

/// The stages after compressing, on success.
pub open spec fn closing_stages(p: DmgPlan) -> Seq<DmgStage> {
    (if p.volume_icon is Some {
        seq![
            DmgStage::IconAttach,
            DmgStage::IconCopy,
            DmgStage::IconMark,
            DmgStage::IconSync,
            DmgStage::IconSettle,
            DmgStage::IconDetach,
        ]
    } else {
        Seq::empty()
    }) + seq![DmgStage::Cleanup, DmgStage::Done]
}

/// The stages from writing the layout script through compressing, then
/// the closing stages.
pub open spec fn layout_stages(p: DmgPlan) -> Seq<DmgStage> {
    seq![
        DmgStage::WriteScript,
        DmgStage::RunScript,
        DmgStage::RemoveScript,
        DmgStage::Sync,
        DmgStage::Settle,
        DmgStage::Detach,
        DmgStage::Compress,
    ] + closing_stages(p)
}

proof fn lemma_closing_path(p: DmgPlan)
    ensures
        stages_from(p, next_stage(p, DmgStage::Compress), closing_stages(p).len())
            == closing_stages(p),
{
    let t = closing_stages(p);
    assert(stages_from(p, DmgStage::Done, 0) =~= Seq::<DmgStage>::empty());
    assert(stages_from(p, DmgStage::Done, 1) =~= seq![DmgStage::Done]);
    assert(stages_from(p, DmgStage::Cleanup, 2) =~= seq![DmgStage::Cleanup, DmgStage::Done]);
    if p.volume_icon is Some {
        assert(stages_from(p, DmgStage::IconDetach, 3) =~= t.subrange(5, 8));
        assert(stages_from(p, DmgStage::IconSettle, 4) =~= t.subrange(4, 8));
        assert(stages_from(p, DmgStage::IconSync, 5) =~= t.subrange(3, 8));
        assert(stages_from(p, DmgStage::IconMark, 6) =~= t.subrange(2, 8));
        assert(stages_from(p, DmgStage::IconCopy, 7) =~= t.subrange(1, 8));
        assert(stages_from(p, DmgStage::IconAttach, 8) =~= t);
    } else {
        assert(t =~= seq![DmgStage::Cleanup, DmgStage::Done]);
    }
}

proof fn lemma_layout_path(p: DmgPlan)
    ensures
        stages_from(p, DmgStage::WriteScript, layout_stages(p).len()) == layout_stages(p),
{
    lemma_closing_path(p);
    let n = closing_stages(p).len();
    let t = layout_stages(p);
    let e = t.len() as int;
    assert(t.subrange(7, e) =~= closing_stages(p));
    assert(stages_from(p, DmgStage::Compress, n + 1) =~= t.subrange(6, e));
    assert(stages_from(p, DmgStage::Detach, n + 2) =~= t.subrange(5, e));
    assert(stages_from(p, DmgStage::Settle, n + 3) =~= t.subrange(4, e));
    assert(stages_from(p, DmgStage::Sync, n + 4) =~= t.subrange(3, e));
    assert(stages_from(p, DmgStage::RemoveScript, n + 5) =~= t.subrange(2, e));
    assert(stages_from(p, DmgStage::RunScript, n + 6) =~= t.subrange(1, e));
    assert(stages_from(p, DmgStage::WriteScript, n + 7) =~= t);
}

/// Stepping from the first stage on success visits exactly
/// [`success_stages`], so every mount is paired with its detach on the
/// success path.
pub proof fn lemma_success_path(p: DmgPlan)
    ensures
        stages_from(p, DmgStage::Create, success_stages(p).len()) == success_stages(p),
{
    lemma_layout_path(p);
    let t = layout_stages(p);
    let bg = if p.background is Some {
        seq![DmgStage::BackgroundDir, DmgStage::Background]
    } else {
        Seq::<DmgStage>::empty()
    };
    let u = bg + t;
    if p.background is Some {
        assert(stages_from(p, DmgStage::Background, t.len() + 1) =~= u.subrange(1, u.len() as int));
        assert(stages_from(p, DmgStage::BackgroundDir, t.len() + 2) =~= u);
    } else {
        assert(u =~= t);
    }
    assert(stages_from(p, next_stage(p, DmgStage::Attach), u.len()) == u);
    let w = seq![DmgStage::Create, DmgStage::Attach] + u;
    assert(stages_from(p, DmgStage::Attach, u.len() + 1) =~= w.subrange(1, w.len() as int));
    assert(stages_from(p, DmgStage::Create, u.len() + 2) =~= w);
    assert(w =~= success_stages(p));
}

/// Whether the stage mounts an image and reads its mount path.
pub open spec fn is_attach(s: DmgStage) -> bool {
    s == DmgStage::Attach || s == DmgStage::IconAttach
}

/// The text the mount tool's output is read from, for an event.
pub open spec fn event_output(e: DmgEvent) -> Seq<char> {
    match e {
        DmgEvent::Captured(t) => t@,
        _ => Seq::empty(),
    }
}

/// The error given when no mount path can be read.
pub const MOUNT_UNKNOWN: &'static str = "Failed to determine mount point from hdiutil output";

/// The disk-image driver: one plan, the stage in progress, and the mount
/// path of the current session.
pub struct DmgDriver {
    pub plan: DmgPlan,
    pub stage: DmgStage,
    pub mount: String,
}

fn texts_push(v: &mut Vec<String>, s: &str)
    ensures
        texts(final(v)@) == texts(old(v)@).push(s@),
{
    let ghost before = v@;
    v.push(String::from_str(s));
    assert(texts(v@) =~= texts(before).push(s@));
}

fn run_action(program: &str, args: Vec<String>) -> (r: DmgAction)
    ensures
        r@ == DmgActionView::Run(program@, texts(args@)),
{
    DmgAction::Run { program: String::from_str(program), args }
}

fn capture_action(program: &str, args: Vec<String>) -> (r: DmgAction)
    ensures
        r@ == DmgActionView::Capture(program@, texts(args@)),
{
    DmgAction::Capture { program: String::from_str(program), args }
}

impl DmgDriver {
    /// The action that starts `stage`.
    fn action(&self, stage: DmgStage) -> (r: DmgAction)
        ensures
            r@ == action_of(self.plan, stage, self.mount@),
    {
        let p = &self.plan;
        let mount = self.mount.as_str();
        let mut args: Vec<String> = Vec::new();
        assert(texts(args@) =~= Seq::<Seq<char>>::empty());
        match stage {
            DmgStage::Create => {
                texts_push(&mut args, "create");
                texts_push(&mut args, "-srcfolder");
                texts_push(&mut args, p.staging.as_str());
                texts_push(&mut args, "-volname");
                texts_push(&mut args, p.title.as_str());
                texts_push(&mut args, "-fs");
                texts_push(&mut args, "HFS+");
                texts_push(&mut args, "-fsargs");
                texts_push(&mut args, "-c c=64,a=16,e=16");
                texts_push(&mut args, "-format");
                texts_push(&mut args, "UDRW");
                texts_push(&mut args, p.temp_image.as_str());
                let r = run_action("hdiutil", args);
                assert(r@ == action_of(self.plan, stage, self.mount@)) by {
                    assert(texts(args@) =~= seq![
                        "create"@,
                        "-srcfolder"@,
                        p.staging@,
                        "-volname"@,
                        p.title@,
                        "-fs"@,
                        "HFS+"@,
                        "-fsargs"@,
                        "-c c=64,a=16,e=16"@,
                        "-format"@,
                        "UDRW"@,
                        p.temp_image@,
                    ]);
                }
                r
            },
            DmgStage::Attach => {
                texts_push(&mut args, "attach");
                texts_push(&mut args, "-readwrite");
                texts_push(&mut args, "-noverify");
                texts_push(&mut args, "-noautoopen");
                texts_push(&mut args, p.temp_image.as_str());
                let r = capture_action("hdiutil", args);
                assert(texts(args@) =~= seq!["attach"@, "-readwrite"@, "-noverify"@, "-noautoopen"@, p.temp_image@]);
                r
            },
            DmgStage::BackgroundDir => DmgAction::CreateDir(join(mount, ".background")),
            DmgStage::Background => match &p.background {
                Some(b) => DmgAction::CopyFile {
                    source: b.clone(),
                    destination: join(join(mount, ".background").as_str(), "background.png"),
                },
                None => DmgAction::Finished,
            },
            DmgStage::WriteScript => DmgAction::WriteFile {
                path: join(mount, ".setup_script.applescript"),
                contents: p.script.clone(),
            },
            DmgStage::RunScript => {
                let path = join(mount, ".setup_script.applescript");
                texts_push(&mut args, path.as_str());
                let r = run_action("osascript", args);
                assert(texts(args@) =~= seq![script_path(self.mount@)]);
                r
            },
            DmgStage::RemoveScript => DmgAction::RemoveFile(join(mount, ".setup_script.applescript")),
            DmgStage::Sync | DmgStage::IconSync => run_action("sync", args),
            DmgStage::Settle | DmgStage::IconSettle => DmgAction::Pause { millis: SETTLE_MILLIS },
            DmgStage::Detach | DmgStage::IconDetach => {
                texts_push(&mut args, "detach");
                texts_push(&mut args, mount);
                let r = run_action("hdiutil", args);
                assert(texts(args@) =~= seq!["detach"@, self.mount@]);
                r
            },
            DmgStage::Compress => {
                texts_push(&mut args, "convert");
                texts_push(&mut args, p.temp_image.as_str());
                texts_push(&mut args, "-format");
                texts_push(&mut args, "UDZO");
                texts_push(&mut args, "-imagekey");
                texts_push(&mut args, "zlib-level=9");
                texts_push(&mut args, "-o");
                texts_push(&mut args, p.output_image.as_str());
                let r = run_action("hdiutil", args);
                assert(texts(args@) =~= seq![
                    "convert"@,
                    p.temp_image@,
                    "-format"@,
                    "UDZO"@,
                    "-imagekey"@,
                    "zlib-level=9"@,
                    "-o"@,
                    p.output_image@,
                ]);
                r
            },
            DmgStage::IconAttach => {
                texts_push(&mut args, "attach");
                texts_push(&mut args, p.output_image.as_str());
                texts_push(&mut args, "-readwrite");
                texts_push(&mut args, "-noverify");
                texts_push(&mut args, "-noautoopen");
                let r = capture_action("hdiutil", args);
                assert(texts(args@) =~= seq!["attach"@, p.output_image@, "-readwrite"@, "-noverify"@, "-noautoopen"@]);
                r
            },
            DmgStage::IconCopy => match &p.volume_icon {
                Some(v) => DmgAction::CopyFile {
                    source: v.clone(),
                    destination: join(mount, ".VolumeIcon.icns"),
                },
                None => DmgAction::Finished,
            },
            DmgStage::IconMark => {
                texts_push(&mut args, "-a");
                texts_push(&mut args, "C");
                texts_push(&mut args, mount);
                let r = run_action("SetFile", args);
                assert(texts(args@) =~= seq!["-a"@, "C"@, self.mount@]);
                r
            },
            DmgStage::Cleanup => DmgAction::RemoveFile(p.temp_image.clone()),
            DmgStage::Done | DmgStage::Failed => DmgAction::Finished,
        }
    }

    /// The stage after `stage` on success.
    fn next(&self, stage: DmgStage) -> (r: DmgStage)
        ensures
            r == next_stage(self.plan, stage),
    {
        match stage {
            DmgStage::Create => DmgStage::Attach,
            DmgStage::Attach => if self.plan.background.is_some() {
                DmgStage::BackgroundDir
            } else {
                DmgStage::WriteScript
            },
            DmgStage::BackgroundDir => DmgStage::Background,
            DmgStage::Background => DmgStage::WriteScript,
            DmgStage::WriteScript => DmgStage::RunScript,
            DmgStage::RunScript => DmgStage::RemoveScript,
            DmgStage::RemoveScript => DmgStage::Sync,
            DmgStage::Sync => DmgStage::Settle,
            DmgStage::Settle => DmgStage::Detach,
            DmgStage::Detach => DmgStage::Compress,
            DmgStage::Compress => if self.plan.volume_icon.is_some() {
                DmgStage::IconAttach
            } else {
                DmgStage::Cleanup
            },
            DmgStage::IconAttach => DmgStage::IconCopy,
            DmgStage::IconCopy => DmgStage::IconMark,
            DmgStage::IconMark => DmgStage::IconSync,
            DmgStage::IconSync => DmgStage::IconSettle,
            DmgStage::IconSettle => DmgStage::IconDetach,
            DmgStage::IconDetach => DmgStage::Cleanup,
            DmgStage::Cleanup => DmgStage::Done,
            DmgStage::Done => DmgStage::Done,
            DmgStage::Failed => DmgStage::Failed,
        }
    }

    /// A driver at its first stage, and the action that starts it.
    pub fn start(plan: DmgPlan) -> (r: (DmgDriver, DmgAction))
        ensures
            r.0.plan == plan,
            r.0.stage == DmgStage::Create,
            r.1@ == action_of(plan, DmgStage::Create, r.0.mount@),
    {
        let d = DmgDriver { plan, stage: DmgStage::Create, mount: String::new() };
        let a = d.action(DmgStage::Create);
        (d, a)
    }

    /// Takes the outcome of the last action and returns the next one. A
    /// failure ends the run with that failure. At a mounting stage the mount
    /// path is read from the captured output, and the run ends when none can
    /// be read. A finished or failed driver stays as it is.
    pub fn advance(&mut self, event: DmgEvent) -> (r: DmgAction)
        ensures
            final(self).plan == old(self).plan,
            old(self).stage == DmgStage::Done || old(self).stage == DmgStage::Failed ==> {
                &&& final(self).stage == old(self).stage
                &&& r@ == DmgActionView::Finished
            },
            old(self).stage != DmgStage::Done && old(self).stage != DmgStage::Failed ==> match event {
                DmgEvent::Failed(e) => final(self).stage == DmgStage::Failed && r@ == DmgActionView::Abort(e),
                _ => if is_attach(old(self).stage) {
                    match mount_point_of(event_output(event)) {
                        None => {
                            &&& final(self).stage == DmgStage::Failed
                            &&& r@ matches DmgActionView::Abort(Error::Custom(msg))
                            &&& msg@ == MOUNT_UNKNOWN@
                        },
                        Some(mp) => {
                            &&& final(self).mount@ == mp
                            &&& final(self).stage == next_stage(old(self).plan, old(self).stage)
                            &&& r@ == action_of(final(self).plan, final(self).stage, mp)
                        },
                    }
                } else {
                    &&& final(self).mount@ == old(self).mount@
                    &&& final(self).stage == next_stage(old(self).plan, old(self).stage)
                    &&& r@ == action_of(final(self).plan, final(self).stage, old(self).mount@)
                },
            },
    {
        if self.stage == DmgStage::Done || self.stage == DmgStage::Failed {
            return DmgAction::Finished;
        }
        let output = match event {
            DmgEvent::Failed(e) => {
                self.stage = DmgStage::Failed;
                return DmgAction::Abort(e);
            },
            DmgEvent::Captured(t) => t,
            DmgEvent::Completed => String::new(),
        };
        if self.stage == DmgStage::Attach || self.stage == DmgStage::IconAttach {
            match parse_mount_point(output.as_str()) {
                None => {
                    self.stage = DmgStage::Failed;
                    return DmgAction::Abort(Error::Custom(String::from_str(MOUNT_UNKNOWN)));
                },
                Some(mp) => {
                    self.mount = mp;
                },
            }
        }
        let s = self.next(self.stage);
        self.stage = s;
        self.action(s)
    }
}

} // verus!
