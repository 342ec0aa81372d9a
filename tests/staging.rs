use emerge::context::Context;
use emerge::manifest::Manifest;
use emerge::platform::{build, plan_run, Platform, Target};
use emerge::staging::{info_plist, ArchiveFormat, StageOp};

fn plan(icon: Option<&str>) -> Manifest {
    Manifest {
        name: "demo".to_string(),
        version: "1.0".to_string(),
        description: String::new(),
        title: "Demo App".to_string(),
        filename: "demo-linux-1.0".to_string(),
        build_commands: Vec::new(),
        copy_operations: vec![
            ("/p/target/demo".to_string(), "demo".to_string()),
            ("/p/README.md".to_string(), "README.md".to_string()),
            ("/p/missing".to_string(), "lib/missing".to_string()),
        ],
        output_folder: "/p/setup".to_string(),
        icon: icon.map(|s| s.to_string()),
        dmg: None,
    }
}

fn ctx() -> Context {
    Context::new("/p/Cargo.toml".to_string(), false)
}

fn describe(ops: &[StageOp]) -> Vec<String> {
    ops.iter().map(|o| format!("{:?}", o)).collect()
}

#[test]
fn flat_tar_layout() {
    let ops = build(&ctx(), &plan(None), Platform::Linux, "/tmp");
    let d = describe(&ops);
    assert_eq!(
        d,
        vec![
            "EnsureDir(\"/p/setup\")",
            "RemoveTree(\"/tmp/emerge-demo\")",
            "CreateDir(\"/tmp/emerge-demo\")",
            "CreateDir(\"/tmp/emerge-demo/demo\")",
            "Copy { source: \"/p/target/demo\", destination: \"/tmp/emerge-demo/demo/demo\" }",
            "MakeExecutable { path: \"/tmp/emerge-demo/demo/demo\", every_file: false }",
            "Copy { source: \"/p/README.md\", destination: \"/tmp/emerge-demo/demo/README.md\" }",
            "Copy { source: \"/p/missing\", destination: \"/tmp/emerge-demo/demo/lib/missing\" }",
            "MakeExecutable { path: \"/tmp/emerge-demo/demo/lib/missing\", every_file: false }",
            "RestrictWrite(\"/tmp/emerge-demo\")",
            "Archive { format: TarGz, source: \"/tmp/emerge-demo\", output: \"/p/setup/demo-linux-1.0.tar.gz\" }",
            "RemoveTree(\"/tmp/emerge-demo\")",
        ]
    );
}

#[test]
fn flat_zip_layout_sets_no_modes() {
    let ops = build(&ctx(), &plan(None), Platform::Windows, "/tmp");
    assert!(!ops.iter().any(|o| matches!(o, StageOp::MakeExecutable { .. })));
    match &ops[ops.len() - 2] {
        StageOp::Archive { format, output, .. } => {
            assert_eq!(*format, ArchiveFormat::Zip);
            assert_eq!(output, "/p/setup/demo-linux-1.0.zip");
        }
        other => panic!("unexpected {:?}", other),
    }
}

#[test]
fn bundle_layout_routes_files() {
    let ops = build(&ctx(), &plan(Some("/p/icon.png")), Platform::MacOS, "/tmp");
    let d = describe(&ops);
    let root = "/tmp/emerge-demo";
    let contents = "/tmp/emerge-demo/Demo App.app/Contents";
    assert_eq!(d[0], "EnsureDir(\"/p/setup\")");
    assert_eq!(d[1], format!("RemoveTree(\"{}\")", root));
    assert_eq!(d[2], format!("CreateDir(\"{}\")", root));
    assert_eq!(d[3], format!("CreateDir(\"{}/MacOS\")", contents));
    assert_eq!(d[4], format!("CreateDir(\"{}/Resources\")", contents));
    assert!(matches!(&ops[5], StageOp::WriteFile { path, .. } if path == &format!("{}/Info.plist", contents)));
    assert_eq!(
        d[6],
        format!("ConvertIcon {{ source: \"/p/icon.png\", destination: \"{}/Resources/icon.icns\" }}", contents)
    );
    assert_eq!(d[7], format!("Copy {{ source: \"/p/target/demo\", destination: \"{}/MacOS/demo\" }}", contents));
    assert_eq!(d[8], format!("MakeExecutable {{ path: \"{}/MacOS/demo\", every_file: true }}", contents));
    assert_eq!(d[9], format!("Copy {{ source: \"/p/README.md\", destination: \"{}/README.md\" }}", root));
    assert_eq!(d[12], format!("RestrictWrite(\"{}\")", root));
    assert_eq!(d[13], format!("Symlink {{ link: \"{}/Applications\", target: \"/Applications\" }}", root));
    assert_eq!(d[14], "RemoveFile(\"/p/setup/demo-linux-1.0.dmg\")");
    assert_eq!(d[15], format!("DiskImage {{ staging: \"{}\", output: \"/p/setup/demo-linux-1.0.dmg\" }}", root));
    assert_eq!(d[16], format!("RemoveTree(\"{}\")", root));
    assert_eq!(d.len(), 17);
}

#[test]
fn icns_icon_is_copied_verbatim() {
    let ops = build(&ctx(), &plan(Some("/p/app.icns")), Platform::MacOS, "/tmp");
    assert!(matches!(&ops[6], StageOp::CopyFile { source, .. } if source == "/p/app.icns"));
}

#[test]
fn staging_twice_gives_same_steps() {
    let a = describe(&build(&ctx(), &plan(None), Platform::Linux, "/tmp"));
    let b = describe(&build(&ctx(), &plan(None), Platform::Linux, "/tmp"));
    assert_eq!(a, b);
    assert_eq!(a[1], "RemoveTree(\"/tmp/emerge-demo\")");
}

#[test]
fn copies_come_before_the_archive() {
    for target in [Target::Archive(ArchiveFormat::TarGz), Target::Archive(ArchiveFormat::Zip), Target::DiskImage] {
        let ops = plan_run(&ctx(), &plan(Some("/p/icon.png")), target, "/tmp");
        let last_copy = ops
            .iter()
            .rposition(|o| matches!(o, StageOp::Copy { .. } | StageOp::ConvertIcon { .. }))
            .unwrap();
        let first_artifact = ops
            .iter()
            .position(|o| matches!(o, StageOp::Archive { .. } | StageOp::DiskImage { .. } | StageOp::RemoveFile(_)))
            .unwrap();
        assert!(last_copy < first_artifact);
    }
    assert!(plan_run(&ctx(), &plan(None), Target::Unavailable, "/tmp").is_empty());
}

#[test]
fn info_plist_fields() {
    let text = info_plist(&plan(None));
    assert!(text.starts_with("<?xml version=\"1.0\" encoding=\"UTF-8\"?>\n"));
    assert!(text.contains("<key>CFBundleExecutable</key>\n    <string>demo</string>"));
    assert!(text.contains("<string>com.demo.demo</string>"));
    assert!(text.contains("<key>CFBundleName</key>\n    <string>Demo App</string>"));
    assert!(text.contains("<key>CFBundleDisplayName</key>\n    <string>Demo App</string>"));
    assert!(text.contains("<key>CFBundleShortVersionString</key>\n    <string>1.0</string>"));
    assert!(text.contains("<key>CFBundleVersion</key>\n    <string>1.0</string>"));
    assert!(text.contains("<string>10.13</string>"));
    assert!(text.contains("<string>icon.icns</string>"));
    assert!(text.ends_with("</plist>\n"));
}
