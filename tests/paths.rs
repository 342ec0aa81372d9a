use emerge::context::Context;
use emerge::paths::{extension_of, is_documentation, join, parent};
use emerge::platform::{platform_string, select_target, Platform, Target};
use emerge::staging::ArchiveFormat;
use emerge::text::decimal_text;
use emerge::utils::{command_words, manifest_candidate};
use emerge::windows::archive::archive_entry_name;

#[test]
fn join_places_relative_under_base() {
    assert_eq!(join("/home/p", "setup"), "/home/p/setup");
    assert_eq!(join("/home/p/", "setup"), "/home/p/setup");
    assert_eq!(join("", "setup"), "setup");
    assert_eq!(join("/home/p", "/abs/x"), "/abs/x");
}

#[test]
fn parent_of_manifest_paths() {
    assert_eq!(parent("/home/p/Cargo.toml"), "/home/p");
    assert_eq!(parent("/Cargo.toml"), "/");
    assert_eq!(parent("Cargo.toml"), "");
    assert_eq!(parent(""), ".");
    assert_eq!(parent("/"), ".");
    assert_eq!(parent("//"), ".");
    assert_eq!(parent("a/b/"), "a");
    assert_eq!(parent("a//b"), "a");
    assert_eq!(parent("/a"), "/");
    assert_eq!(parent("/proj/sub/"), "/proj");
}

#[test]
fn context_base_dir() {
    let ctx = Context::new("/work/app/Cargo.toml".to_string(), true);
    assert_eq!(ctx.base_dir, "/work/app");
    assert!(ctx.verbose);
    assert_eq!(ctx.manifest_path, "/work/app/Cargo.toml");
}

#[test]
fn extensions() {
    assert_eq!(extension_of("docs/README.md"), Some("md".to_string()));
    assert_eq!(extension_of("a.tar.gz"), Some("gz".to_string()));
    assert_eq!(extension_of(".bashrc"), None);
    assert_eq!(extension_of("dir.d/app"), None);
    assert_eq!(extension_of("file."), Some(String::new()));
}

#[test]
fn documentation_extensions() {
    for p in ["a.md", "b.txt", "c.pdf", "d.html", "e.toml", "f.json", "g.yml", "h.yaml"] {
        assert!(is_documentation(p), "{}", p);
    }
    for p in ["app", "lib.so", "run.sh", "README", "x.MD"] {
        assert!(!is_documentation(p), "{}", p);
    }
}

#[test]
fn platform_names() {
    assert_eq!(Platform::current("macos"), Some(Platform::MacOS));
    assert_eq!(Platform::current("windows"), Some(Platform::Windows));
    assert_eq!(Platform::current("linux"), Some(Platform::Linux));
    assert_eq!(Platform::current("freebsd"), None);
    assert_eq!(Platform::MacOS.as_str(), "macos");
    assert_eq!(platform_string("linux"), "linux");
    assert_eq!(platform_string("solaris"), "unknown");
}

#[test]
fn target_selection() {
    assert_eq!(select_target(true, false, Platform::MacOS), Target::Archive(ArchiveFormat::TarGz));
    assert_eq!(select_target(true, true, Platform::Windows), Target::Archive(ArchiveFormat::Zip));
    assert_eq!(select_target(false, false, Platform::MacOS), Target::DiskImage);
    assert_eq!(select_target(false, true, Platform::Linux), Target::Unavailable);
    assert_eq!(select_target(false, false, Platform::Linux), Target::Archive(ArchiveFormat::TarGz));
    assert_eq!(select_target(false, false, Platform::Windows), Target::Archive(ArchiveFormat::Zip));
}

#[test]
fn decimal_numbers() {
    assert_eq!(decimal_text(0), "0");
    assert_eq!(decimal_text(510), "510");
    assert_eq!(decimal_text(-42), "-42");
    assert_eq!(decimal_text(i64::MIN), i64::MIN.to_string());
    assert_eq!(decimal_text(i64::MAX), i64::MAX.to_string());
}

#[test]
fn command_lines_split_on_blanks() {
    assert_eq!(command_words("cargo  build --release\t-p app "), vec!["cargo", "build", "--release", "-p", "app"]);
    assert!(command_words("   ").is_empty());
    assert!(command_words("").is_empty());
}

#[test]
fn manifest_candidates() {
    assert_eq!(manifest_candidate("/p/Cargo.toml", true), "/p/Cargo.toml");
    assert_eq!(manifest_candidate("/p", false), "/p/Cargo.toml");
    assert_eq!(manifest_candidate("/p/Other.toml", true), "/p/Other.toml/Cargo.toml");
}

#[test]
fn zip_entry_names() {
    assert_eq!(archive_entry_name("/tmp/emerge-app", "/tmp/emerge-app/app/bin"), Some("app/bin".to_string()));
    assert_eq!(archive_entry_name("/tmp/emerge-app", "/tmp/emerge-app"), None);
    assert_eq!(archive_entry_name("/tmp/emerge-app", "/tmp/other/x"), None);
}

#[test]
fn context_base_dir_edge_cases() {
    assert_eq!(Context::new("/".to_string(), false).base_dir, ".");
    assert_eq!(Context::new("a/b/".to_string(), false).base_dir, "a");
    assert_eq!(Context::new("Cargo.toml".to_string(), false).base_dir, "");
}
