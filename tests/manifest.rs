use emerge::context::Context;
use emerge::error::Error;
use emerge::manifest::{
    CargoToml, DmgConfig, EmergeConfig, ExternalManifest, Manifest, Metadata, Package, Workspace,
    WorkspacePackage,
};
use emerge::platform::Platform;

fn config() -> EmergeConfig {
    EmergeConfig {
        title: None,
        filename: None,
        build: Vec::new(),
        copy: Vec::new(),
        output_folder: None,
        icon: None,
        dmg: None,
        manifest: None,
    }
}

fn package(name: &str, version: &str, emerge: Option<EmergeConfig>) -> Package {
    Package {
        name: name.to_string(),
        version: version.to_string(),
        description: None,
        metadata: Some(Metadata { emerge }),
    }
}

fn ctx() -> Context {
    Context::new("/proj/Cargo.toml".to_string(), false)
}

#[test]
fn filename_defaults_to_name_platform_version() {
    let p = package("demo", "1.2.3", None);
    let m = Manifest::process_manifest(&ctx(), &p, config(), Platform::Linux).unwrap();
    assert_eq!(m.filename, "demo-linux-1.2.3");
    assert_eq!(m.title, "demo");
    assert_eq!(m.output_folder, "/proj/setup");
    assert_eq!(m.description, "");
    assert!(m.icon.is_none());
}

#[test]
fn directives_are_expanded() {
    let mut c = config();
    c.title = Some("$NAME App".to_string());
    c.filename = Some("$NAME-$VERSION-$PLATFORM-setup".to_string());
    c.build = vec!["cargo build -p $NAME".to_string()];
    c.copy = vec![
        ("target/release/$NAME".to_string(), "$NAME".to_string()),
        ("README.md".to_string(), "docs/README.md".to_string()),
    ];
    c.output_folder = Some("dist/$VERSION".to_string());
    c.icon = Some("assets/$NAME.png".to_string());
    let mut p = package("demo", "2.0", None);
    p.description = Some("A demo".to_string());
    let m = Manifest::process_manifest(&ctx(), &p, c, Platform::MacOS).unwrap();
    assert_eq!(m.title, "demo App");
    assert_eq!(m.filename, "demo-2.0-macos-setup");
    assert_eq!(m.build_commands, vec!["cargo build -p demo".to_string()]);
    assert_eq!(
        m.copy_operations,
        vec![
            ("/proj/target/release/demo".to_string(), "demo".to_string()),
            ("/proj/README.md".to_string(), "docs/README.md".to_string()),
        ]
    );
    assert_eq!(m.output_folder, "/proj/dist/2.0");
    assert_eq!(m.icon, Some("/proj/assets/demo.png".to_string()));
    assert_eq!(m.description, "A demo");
}

#[test]
fn empty_identity_is_invalid() {
    let p = package("", "1.0", None);
    let r = Manifest::process_manifest(&ctx(), &p, config(), Platform::Linux);
    assert!(matches!(r, Err(Error::InvalidManifest(_))));
    let p = package("demo", "", None);
    let r = Manifest::process_manifest(&ctx(), &p, config(), Platform::Linux);
    assert!(matches!(r, Err(Error::InvalidManifest(_))));
}

#[test]
fn embedded_block_is_used_without_redirect() {
    let mut c = config();
    c.title = Some("Embedded".to_string());
    let doc = CargoToml { package: Some(package("demo", "1.0", Some(c))), workspace: None };
    assert_eq!(Manifest::redirect_of(&doc), None);
    let m = Manifest::load(&ctx(), doc, ExternalManifest::NotFound, Platform::Linux).unwrap();
    assert_eq!(m.title, "Embedded");
}

#[test]
fn missing_sections_are_invalid() {
    let doc = CargoToml { package: None, workspace: None };
    let r = Manifest::load(&ctx(), doc, ExternalManifest::NotFound, Platform::Linux);
    assert!(matches!(r, Err(Error::InvalidManifest(_))));
    let doc = CargoToml { package: Some(package("demo", "1.0", None)), workspace: None };
    let r = Manifest::load(&ctx(), doc, ExternalManifest::NotFound, Platform::Linux);
    assert!(matches!(r, Err(Error::InvalidManifest(_))));
}

fn external_doc(title: &str) -> CargoToml {
    let mut c = config();
    c.title = Some(title.to_string());
    c.build = vec!["make".to_string()];
    CargoToml { package: Some(package("ext", "9.9", Some(c))), workspace: None }
}

#[test]
fn redirect_replaces_embedded_block() {
    let mut c = config();
    c.title = Some("Embedded".to_string());
    c.build = vec!["never".to_string()];
    c.manifest = Some("packaging.toml".to_string());
    let doc = CargoToml { package: Some(package("demo", "1.0", Some(c))), workspace: None };
    assert_eq!(Manifest::redirect_of(&doc), Some("packaging.toml".to_string()));
    let ext = ExternalManifest::Document(external_doc("External"));
    let m = Manifest::load(&ctx(), doc, ext, Platform::Linux).unwrap();
    assert_eq!(m.title, "External");
    assert_eq!(m.name, "ext");
    assert_eq!(m.build_commands, vec!["make".to_string()]);
}

#[test]
fn workspace_redirect_wins_over_embedded_block() {
    let mut ws_block = config();
    ws_block.manifest = Some("ws.toml".to_string());
    let mut c = config();
    c.title = Some("Embedded".to_string());
    let doc = CargoToml {
        package: Some(package("demo", "1.0", Some(c))),
        workspace: Some(Workspace {
            package: Some(WorkspacePackage {
                name: None,
                version: None,
                description: None,
                metadata: Some(Metadata { emerge: Some(ws_block) }),
            }),
        }),
    };
    assert_eq!(Manifest::redirect_of(&doc), Some("ws.toml".to_string()));
    let m = Manifest::load(&ctx(), doc, ExternalManifest::Document(external_doc("Ws")), Platform::Linux)
        .unwrap();
    assert_eq!(m.title, "Ws");
}

#[test]
fn external_file_failures() {
    let r = Manifest::load_with_emerge_manifest(&ctx(), "/x.toml", ExternalManifest::NotFound, Platform::Linux);
    assert!(matches!(r, Err(Error::ManifestNotFound(_))));
    let r = Manifest::load_with_emerge_manifest(&ctx(), "/x.toml", ExternalManifest::Standalone, Platform::Linux);
    assert!(matches!(r, Err(Error::InvalidManifest(_))));
    let r = Manifest::load_with_emerge_manifest(&ctx(), "/x.toml", ExternalManifest::Unparsable, Platform::Linux);
    assert!(matches!(r, Err(Error::InvalidManifest(_))));
    let no_pkg = CargoToml { package: None, workspace: None };
    let r = Manifest::load_with_emerge_manifest(&ctx(), "/x.toml", ExternalManifest::Document(no_pkg), Platform::Linux);
    assert!(matches!(r, Err(Error::InvalidManifest(_))));
    let no_block = CargoToml { package: Some(package("a", "1", None)), workspace: None };
    let r = Manifest::load_with_emerge_manifest(&ctx(), "/x.toml", ExternalManifest::Document(no_block), Platform::Linux);
    assert!(matches!(r, Err(Error::InvalidManifest(_))));
}

#[test]
fn external_file_may_not_redirect_again() {
    let mut c = config();
    c.manifest = Some("further.toml".to_string());
    let chained = CargoToml { package: Some(package("a", "1", Some(c))), workspace: None };
    let r = Manifest::load_with_emerge_manifest(&ctx(), "/x.toml", ExternalManifest::Document(chained), Platform::Linux);
    assert!(matches!(r, Err(Error::InvalidManifest(_))));
}

#[test]
fn dmg_block_is_kept() {
    let mut c = config();
    c.dmg = Some(DmgConfig {
        background: Some("bg.png".to_string()),
        window_position: Some((10, 10)),
        window_size: Some((500, 300)),
        app_position: None,
        applications_position: None,
        additional_files: Vec::new(),
    });
    let m = Manifest::process_manifest(&ctx(), &package("d", "1", None), c, Platform::MacOS).unwrap();
    let d = m.dmg.unwrap();
    assert_eq!(d.window_position, Some((10, 10)));
    assert_eq!(d.background, Some("bg.png".to_string()));
}

#[test]
fn error_messages() {
    assert_eq!(Error::InvalidManifest("x".to_string()).message(), "Invalid manifest: x");
    assert_eq!(Error::custom("plain").message(), "plain");
    assert_eq!(Error::ManifestNotFound("/p".to_string()).message(), "Manifest not found at path: /p");
    assert_eq!(Error::CommandFailed("c".to_string()).message(), "Command execution failed: c");
    assert_eq!(Error::Image("i".to_string()).message(), "Image error: i");
}

#[test]
fn error_from_string_is_custom() {
    let e: Error = "something broke".to_string().into();
    assert_eq!(e, Error::Custom("something broke".to_string()));
    assert_eq!(e.message(), "something broke");
}

#[test]
fn error_from_str_is_custom() {
    let e: Error = "plain text".into();
    assert_eq!(e, Error::Custom("plain text".to_string()));
}

#[test]
fn external_errors_name_the_file() {
    match Manifest::load_with_emerge_manifest(&ctx(), "/cfg/pack.toml", ExternalManifest::NotFound, Platform::Linux) {
        Err(Error::ManifestNotFound(m)) => assert_eq!(m, "Emerge manifest not found at: /cfg/pack.toml"),
        other => panic!("unexpected {:?}", other.map(|m| m.name)),
    }
    for ext in [ExternalManifest::Standalone, ExternalManifest::Unparsable] {
        match Manifest::load_with_emerge_manifest(&ctx(), "/cfg/pack.toml", ext, Platform::Linux) {
            Err(Error::InvalidManifest(m)) => assert!(m.contains("/cfg/pack.toml")),
            other => panic!("unexpected {:?}", other.map(|m| m.name)),
        }
    }
    let no_block = CargoToml { package: Some(package("a", "1", None)), workspace: None };
    match Manifest::load_with_emerge_manifest(&ctx(), "/cfg/pack.toml", ExternalManifest::Document(no_block), Platform::Linux) {
        Err(Error::InvalidManifest(m)) => assert!(m.contains("/cfg/pack.toml")),
        other => panic!("unexpected {:?}", other.map(|m| m.name)),
    }
}
