//! The packaging manifest: its parsed shape, the choice among its layers,
//! and the resolution into one immutable package plan.

use vstd::prelude::*;
use crate::context::Context;
use crate::error::Error;
use crate::paths::{join, join_path};
use crate::platform::Platform;
use crate::text::{contains, join2, occurs_at};
use crate::tpl::{substitute, Tpl};

verus! {

/// A project manifest as read from its file.
#[derive(Debug)]
pub struct CargoToml {
    pub package: Option<Package>,
    pub workspace: Option<Workspace>,
}

/// The workspace section of a project manifest.
#[derive(Debug)]
pub struct Workspace {
    pub package: Option<WorkspacePackage>,
}

/// Package settings shared by the members of a workspace.
#[derive(Debug)]
pub struct WorkspacePackage {
    pub name: Option<String>,
    pub version: Option<String>,
    pub description: Option<String>,
    pub metadata: Option<Metadata>,
}

/// The identity of a package and its extra metadata. A name or version
/// inherited from the workspace arrives here empty.
#[derive(Debug)]
pub struct Package {
    pub name: String,
    pub version: String,
    pub description: Option<String>,
    pub metadata: Option<Metadata>,
}

/// Tool-specific metadata of a package.
#[derive(Debug, Default)]
pub struct Metadata {
    pub emerge: Option<EmergeConfig>,
}

/// The packaging block: what to build, what to copy where, and how to name
/// and lay out the result. `copy` holds (source, destination) pairs in order.
#[derive(Debug)]
pub struct EmergeConfig {
    pub title: Option<String>,
    pub filename: Option<String>,
    pub build: Vec<String>,
    pub copy: Vec<(String, String)>,
    pub output_folder: Option<String>,
    pub icon: Option<String>,
    pub dmg: Option<DmgConfig>,
    pub manifest: Option<String>,
}

/// Layout of the disk-image window, in pixels.
#[derive(Debug)]
pub struct DmgConfig {
    pub background: Option<String>,
    pub window_position: Option<(i32, i32)>,
    pub window_size: Option<(i32, i32)>,
    pub app_position: Option<(i32, i32)>,
    pub applications_position: Option<(i32, i32)>,
    pub additional_files: Vec<DmgFile>,
}

/// A further file shown in the disk-image window.
#[derive(Debug)]
pub struct DmgFile {
    pub source: String,
    pub position: (i32, i32),
}

/// The resolved package plan. Built once, read by every later stage.
/// `copy_operations` pairs an absolute source with a destination relative to
/// the staging root.
#[derive(Debug)]
pub struct Manifest {
    pub name: String,
    pub version: String,
    pub description: String,
    pub title: String,
    pub filename: String,
    pub build_commands: Vec<String>,
    pub copy_operations: Vec<(String, String)>,
    pub output_folder: String,
    pub icon: Option<String>,
    pub dmg: Option<DmgConfig>,
}

/// What was found at the path of an external packaging file.
#[derive(Debug)]
pub enum ExternalManifest {
    /// No file exists there.
    NotFound,
    /// The file reads as a full project manifest.
    Document(CargoToml),
    /// The file reads only as a bare packaging block, with no identity.
    Standalone,
    /// The file reads as neither.
    Unparsable,
}

/// The template variables of a plan, in the order they are substituted.
pub open spec fn plan_vars(name: Seq<char>, version: Seq<char>, platform: Platform) -> Seq<
    (Seq<char>, Seq<char>),
> {
    seq![("NAME"@, name), ("VERSION"@, version), ("PLATFORM"@, platform.name())]
}

/// The output base name used when the manifest gives none.
pub open spec fn default_filename(name: Seq<char>, platform: Platform, version: Seq<char>) -> Seq<
    char,
> {
    name + "-"@ + platform.name() + "-"@ + version
}

/// The expansion of an optional template, or `default` when it is absent.
pub open spec fn expand_or(
    o: Option<String>,
    vars: Seq<(Seq<char>, Seq<char>)>,
    default: Seq<char>,
) -> Seq<char> {
    match o {
        Some(t) => substitute(vars, t@),
        None => default,
    }
}

/// `m` is the plan that `package` and `config` resolve to, for `platform`,
/// with relative paths taken from `base`.
pub open spec fn is_plan_for(
    m: Manifest,
    base: Seq<char>,
    package: Package,
    config: EmergeConfig,
    platform: Platform,
) -> bool {
    let vars = plan_vars(package.name@, package.version@, platform);
    &&& m.name@ == package.name@
    &&& m.version@ == package.version@
    &&& m.description@ == match package.description {
        Some(d) => d@,
        None => Seq::empty(),
    }
    &&& m.title@ == expand_or(config.title, vars, package.name@)
    &&& m.filename@ == expand_or(
        config.filename,
        vars,
        default_filename(package.name@, platform, package.version@),
    )
    &&& m.build_commands@.len() == config.build@.len()
    &&& forall|i: int|
        0 <= i < config.build@.len() ==> #[trigger] m.build_commands@[i]@ == substitute(
            vars,
            config.build@[i]@,
        )
    &&& m.copy_operations@.len() == config.copy@.len()
    &&& forall|i: int|
        0 <= i < config.copy@.len() ==> {
            &&& (#[trigger] m.copy_operations@[i]).0@ == join_path(
                base,
                substitute(vars, config.copy@[i].0@),
            )
            &&& m.copy_operations@[i].1@ == substitute(vars, config.copy@[i].1@)
        }
    &&& m.output_folder@ == join_path(base, expand_or(config.output_folder, vars, "setup"@))
    &&& match config.icon {
        Some(i) => m.icon matches Some(mi) && mi@ == join_path(base, substitute(vars, i@)),
        None => m.icon is None,
    }
    &&& m.dmg == config.dmg
}

/// What resolving `package` with `config` yields: a plan, unless the
/// identity is incomplete.
pub open spec fn plan_outcome(
    base: Seq<char>,
    package: Package,
    config: EmergeConfig,
    platform: Platform,
    r: Result<Manifest, Error>,
) -> bool {
    if package.name@.len() == 0 || package.version@.len() == 0 {
        r matches Err(Error::InvalidManifest(_))
    } else {
        r matches Ok(m) && is_plan_for(m, base, package, config, platform)
    }
}

/// The packaging block embedded in a package's metadata.
pub open spec fn embedded_config(package: Package) -> Option<EmergeConfig> {
    match package.metadata {
        Some(m) => m.emerge,
        None => None,
    }
}

/// The external file named by the workspace's packaging block.
pub open spec fn workspace_redirect(doc: CargoToml) -> Option<String> {
    match doc.workspace {
        Some(w) => match w.package {
            Some(p) => match p.metadata {
                Some(m) => match m.emerge {
                    Some(e) => e.manifest,
                    None => None,
                },
                None => None,
            },
            None => None,
        },
        None => None,
    }
}

/// The external packaging file that takes the place of the embedded block:
/// the workspace's first, then the package's own.
pub open spec fn redirect_spec(doc: CargoToml) -> Option<String> {
    match workspace_redirect(doc) {
        Some(p) => Some(p),
        None => match doc.package {
            Some(pkg) => match embedded_config(pkg) {
                Some(c) => c.manifest,
                None => None,
            },
            None => None,
        },
    }
}

/// Whether `e` is an invalid-manifest error whose text names the file at `path`.
pub open spec fn invalid_naming(e: Error, path: Seq<char>) -> bool {
    e is InvalidManifest && contains(crate::error::error_detail(e), path)
}

/// What loading the external packaging file at `path` yields. It must carry
/// its own identity and packaging block, and may not point on to a further
/// file; each failure names the file.
pub open spec fn external_outcome(
    base: Seq<char>,
    path: Seq<char>,
    ext: ExternalManifest,
    platform: Platform,
    r: Result<Manifest, Error>,
) -> bool {
    match ext {
        ExternalManifest::NotFound => r matches Err(Error::ManifestNotFound(m)) && m@
            == "Emerge manifest not found at: "@ + path,
        ExternalManifest::Standalone => r matches Err(e) && invalid_naming(e, path),
        ExternalManifest::Unparsable => r matches Err(e) && invalid_naming(e, path),
        ExternalManifest::Document(d) => match d.package {
            None => r matches Err(e) && invalid_naming(e, path),
            Some(pkg) => match embedded_config(pkg) {
                None => r matches Err(e) && invalid_naming(e, path),
                Some(c) => if c.manifest is Some {
                    r matches Err(e) && invalid_naming(e, path)
                } else {
                    plan_outcome(base, pkg, c, platform, r)
                },
            },
        },
    }
}

/// What loading the project manifest `doc` yields.
pub open spec fn load_outcome(
    base: Seq<char>,
    doc: CargoToml,
    ext: ExternalManifest,
    platform: Platform,
    r: Result<Manifest, Error>,
) -> bool {
    match redirect_spec(doc) {
        Some(p) => external_outcome(base, p@, ext, platform, r),
        None => match doc.package {
            None => r matches Err(Error::InvalidManifest(_)),
            Some(pkg) => match embedded_config(pkg) {
                None => r matches Err(Error::InvalidManifest(_)),
                Some(c) => plan_outcome(base, pkg, c, platform, r),
            },
        },
    }
}

/// When the packaging block gives no file name, the resolved plan's file
/// name is exactly `{name}-{platform}-{version}`.
pub proof fn lemma_default_filename(
    base: Seq<char>,
    package: Package,
    config: EmergeConfig,
    platform: Platform,
    r: Result<Manifest, Error>,
)
    requires
        plan_outcome(base, package, config, platform, r),
        r is Ok,
        config.filename is None,
    ensures
        r->Ok_0.filename@ == package.name@ + "-"@ + platform.name() + "-"@ + package.version@,
{
}

/// Once a project manifest names an external packaging file, that file
/// alone decides the outcome: the embedded packaging block takes no part and
/// nothing of it is merged, so two manifests that redirect to the same file
/// load alike.
pub proof fn lemma_redirect_replaces_embedded(
    base: Seq<char>,
    doc: CargoToml,
    other: CargoToml,
    ext: ExternalManifest,
    platform: Platform,
    r: Result<Manifest, Error>,
)
    requires
        redirect_spec(doc) is Some,
        redirect_spec(other) == redirect_spec(doc),
    ensures
        load_outcome(base, doc, ext, platform, r) == external_outcome(
            base,
            redirect_spec(doc)->0@,
            ext,
            platform,
            r,
        ),
        load_outcome(base, doc, ext, platform, r) == load_outcome(base, other, ext, platform, r),
{
}

/// A workspace-level redirect is chosen over the package's own packaging
/// block, whatever that block holds.
pub proof fn lemma_workspace_redirect_first(doc: CargoToml)
    requires
        workspace_redirect(doc) is Some,
    ensures
        redirect_spec(doc) == workspace_redirect(doc),
{
}

/// `before`, then `path`, then `after`: an error text that names a file.
fn invalid_text(before: &str, path: &str, after: &str) -> (r: String)
    ensures
        r@ == before@ + path@ + after@,
        contains(r@, path@),
{
    let mut s = join2(before, path);
    s.append(after);
    assert((before@ + path@ + after@).subrange(
        before@.len() as int,
        (before@.len() + path@.len()) as int,
    ) =~= path@);
    assert(occurs_at(s@, path@, before@.len() as int));
    s
}

/// A template processor holding the variables of a plan.
fn plan_tpl(name: &str, version: &str, platform: Platform) -> (r: Tpl)
    ensures
        r@ == plan_vars(name@, version@, platform),
        r.wf(),
{
    let mut tpl = Tpl::new();
    proof {
        reveal_strlit("NAME");
        reveal_strlit("VERSION");
        reveal_strlit("PLATFORM");
    }
    tpl.register("NAME", name);
    assert(tpl@ =~= seq![("NAME"@, name@)]);
    assert(!crate::tpl::has_key(tpl@, "VERSION"@)) by {
        assert("NAME"@ != "VERSION"@) by {
            assert("NAME"@.len() != "VERSION"@.len());
        }
    }
    tpl.register("VERSION", version);
    assert(tpl@ =~= seq![("NAME"@, name@), ("VERSION"@, version@)]);
    assert(!crate::tpl::has_key(tpl@, "PLATFORM"@)) by {
        assert("NAME"@ != "PLATFORM"@) by {
            assert("NAME"@.len() != "PLATFORM"@.len());
        }
        assert("VERSION"@ != "PLATFORM"@) by {
            assert("VERSION"@[0] != "PLATFORM"@[0]);
        }
    }
    tpl.register("PLATFORM", platform.as_str());
    assert(tpl@ =~= plan_vars(name@, version@, platform));
    tpl
}

impl Manifest {
    /// The external packaging file that replaces the embedded packaging
    /// block of `doc`, if it names one.
    pub fn redirect_of(doc: &CargoToml) -> (r: Option<String>)
        ensures
            r == redirect_spec(*doc),
    {
        if let Some(w) = &doc.workspace {
            if let Some(p) = &w.package {
                if let Some(m) = &p.metadata {
                    if let Some(e) = &m.emerge {
                        if let Some(path) = &e.manifest {
                            return Some(path.clone());
                        }
                    }
                }
            }
        }
        match &doc.package {
            Some(pkg) => match &pkg.metadata {
                Some(m) => match &m.emerge {
                    Some(e) => match &e.manifest {
                        Some(path) => Some(path.clone()),
                        None => None,
                    },
                    None => None,
                },
                None => None,
            },
            None => None,
        }
    }

    /// Resolves the project manifest `doc`. Where it redirects to an external
    /// packaging file, `external` is what was found at that path and wholly
    /// replaces the embedded block; otherwise `external` is not consulted.
    pub fn load(ctx: &Context, doc: CargoToml, external: ExternalManifest, platform: Platform) -> (r:
        Result<Self, Error>)
        ensures
            load_outcome(ctx.base_dir@, doc, external, platform, r),
    {
        let target = Self::redirect_of(&doc);
        if let Some(path) = target {
            return Self::load_with_emerge_manifest(ctx, path.as_str(), external, platform);
        }
        match doc.package {
            None => Err(Error::InvalidManifest(
                String::from_str("No [package] or [workspace.package] section found in Cargo.toml"),
            )),
            Some(package) => {
                let config = match package.metadata {
                    Some(m) => m.emerge,
                    None => None,
                };
                match config {
                    None => Err(Error::InvalidManifest(
                        String::from_str("Missing [package.metadata.emerge] section in Cargo.toml"),
                    )),
                    Some(c) => Self::process_manifest(
                        ctx,
                        &Package {
                            name: package.name,
                            version: package.version,
                            description: package.description,
                            metadata: None,
                        },
                        c,
                        platform,
                    ),
                }
            },
        }
    }

    /// Resolves the external packaging file at `emerge_path`, given what was
    /// found there.
    pub fn load_with_emerge_manifest(
        ctx: &Context,
        emerge_path: &str,
        external: ExternalManifest,
        platform: Platform,
    ) -> (r: Result<Self, Error>)
        ensures
            external_outcome(ctx.base_dir@, emerge_path@, external, platform, r),
    {
        match external {
            ExternalManifest::NotFound => Err(Error::ManifestNotFound(
                join2("Emerge manifest not found at: ", emerge_path),
            )),
            ExternalManifest::Standalone => Err(Error::InvalidManifest(
                invalid_text(
                    "",
                    emerge_path,
                    " must contain a [package] section with name and version, or use the full Cargo.toml format with [package.metadata.emerge] section",
                ),
            )),
            ExternalManifest::Unparsable => Err(Error::InvalidManifest(
                invalid_text(
                    "",
                    emerge_path,
                    " could not be parsed: it must be either a valid Cargo.toml with [package.metadata.emerge], or a standalone emerge configuration",
                ),
            )),
            ExternalManifest::Document(d) => match d.package {
                None => Err(Error::InvalidManifest(
                    invalid_text("", emerge_path, " must contain a [package] section with name and version"),
                )),
                Some(package) => {
                    let config = match package.metadata {
                        Some(m) => m.emerge,
                        None => None,
                    };
                    match config {
                        None => Err(Error::InvalidManifest(
                            invalid_text("Missing [package.metadata.emerge] section in ", emerge_path, ""),
                        )),
                        Some(c) => {
                            if c.manifest.is_some() {
                                Err(Error::InvalidManifest(
                                    invalid_text(
                                        "",
                                        emerge_path,
                                        " points to a further manifest; only one level of redirection is allowed",
                                    ),
                                ))
                            } else {
                                Self::process_manifest(
                                    ctx,
                                    &Package {
                                        name: package.name,
                                        version: package.version,
                                        description: package.description,
                                        metadata: None,
                                    },
                                    c,
                                    platform,
                                )
                            }
                        },
                    }
                },
            },
        }
    }

    /// Builds the plan from a package identity and its packaging block:
    /// every string directive is expanded over `NAME`, `VERSION` and
    /// `PLATFORM`, and relative paths are placed under the base directory.
    pub fn process_manifest(
        ctx: &Context,
        package: &Package,
        emerge_config: EmergeConfig,
        platform: Platform,
    ) -> (r: Result<Self, Error>)
        ensures
            plan_outcome(ctx.base_dir@, *package, emerge_config, platform, r),
    {
        if package.name.as_str().unicode_len() == 0 {
            return Err(Error::InvalidManifest(String::from_str("the package name is empty")));
        }
        if package.version.as_str().unicode_len() == 0 {
            return Err(Error::InvalidManifest(String::from_str("the package version is empty")));
        }
        let ghost config = emerge_config;
        let ghost vars = plan_vars(package.name@, package.version@, platform);
        let tpl = plan_tpl(package.name.as_str(), package.version.as_str(), platform);
        let base = ctx.base_dir.as_str();

        let title = match emerge_config.title {
            Some(t) => tpl.parse(t.as_str()),
            None => package.name.clone(),
        };
        let filename = match emerge_config.filename {
            Some(f) => tpl.parse(f.as_str()),
            None => {
                let mut s = package.name.clone();
                s.append("-");
                s.append(platform.as_str());
                s.append("-");
                s.append(package.version.as_str());
                s
            },
        };
        let description = match &package.description {
            Some(d) => d.clone(),
            None => String::new(),
        };
        let build_commands = tpl.parse_vec(emerge_config.build.as_slice());

        let mut copy_operations: Vec<(String, String)> = Vec::new();
        let n = emerge_config.copy.len();
        let mut i: usize = 0;
        while i < n
            invariant
                n == config.copy@.len(),
                emerge_config.copy == config.copy,
                tpl@ == vars,
                base@ == ctx.base_dir@,
                i <= n,
                copy_operations@.len() == i,
                forall|j: int|
                    0 <= j < i ==> {
                        &&& (#[trigger] copy_operations@[j]).0@ == join_path(
                            base@,
                            substitute(vars, config.copy@[j].0@),
                        )
                        &&& copy_operations@[j].1@ == substitute(vars, config.copy@[j].1@)
                    },
            decreases n - i,
        {
            let pair = &emerge_config.copy[i];
            let src = join(base, tpl.parse(pair.0.as_str()).as_str());
            let dst = tpl.parse(pair.1.as_str());
            copy_operations.push((src, dst));
            i = i + 1;
        }

        let output_folder = match emerge_config.output_folder {
            Some(f) => join(base, tpl.parse(f.as_str()).as_str()),
            None => join(base, "setup"),
        };
        let icon = match emerge_config.icon {
            Some(p) => Some(join(base, tpl.parse(p.as_str()).as_str())),
            None => None,
        };
        proof {
            reveal_strlit("-");
        }
        Ok(Manifest {
            name: package.name.clone(),
            version: package.version.clone(),
            description,
            title,
            filename,
            build_commands,
            copy_operations,
            output_folder,
            icon,
            dmg: emerge_config.dmg,
        })
    }
}

} // verus!
