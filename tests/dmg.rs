use emerge::context::Context;
use emerge::error::Error;
use emerge::macos::dmg::{
    dmg_plan, layout_script_for, parse_mount_point, window_bounds, DmgAction, DmgDriver, DmgEvent,
    DmgStage,
};
use emerge::manifest::{DmgConfig, Manifest};

fn plan(dmg: Option<DmgConfig>, icon: bool) -> Manifest {
    Manifest {
        name: "demo".to_string(),
        version: "1.0".to_string(),
        description: String::new(),
        title: "Demo".to_string(),
        filename: "demo-macos-1.0".to_string(),
        build_commands: Vec::new(),
        copy_operations: Vec::new(),
        output_folder: "/p/setup".to_string(),
        icon: if icon { Some("/p/icon.png".to_string()) } else { None },
        dmg,
    }
}

fn layout(background: bool) -> DmgConfig {
    DmgConfig {
        background: if background { Some("bg.png".to_string()) } else { None },
        window_position: Some((10, 10)),
        window_size: Some((500, 300)),
        app_position: None,
        applications_position: Some((400, 120)),
        additional_files: Vec::new(),
    }
}

#[test]
fn explicit_window_bounds() {
    assert_eq!(window_bounds(&Some(layout(false))), (10, 10, 510, 310));
    let script = layout_script_for(&plan(Some(layout(false)), false));
    assert!(script.contains("set the bounds of container window to {10, 10, 510, 310}"));
    assert!(script.contains("set position of item \"Demo.app\" to {150, 200}"));
    assert!(script.contains("set position of item \"Applications\" to {400, 120}"));
    assert!(script.contains("tell disk \"Demo\""));
    assert!(!script.contains("background picture"));
}

#[test]
fn default_window_bounds() {
    assert_eq!(window_bounds(&None), (100, 100, 700, 500));
    let script = layout_script_for(&plan(None, false));
    assert!(script.contains("{100, 100, 700, 500}"));
    assert!(script.contains("set position of item \"Applications\" to {450, 200}"));
    assert!(script.contains("set icon size of viewOptions to 72"));
}

#[test]
fn bounds_do_not_overflow() {
    let mut l = layout(false);
    l.window_position = Some((i32::MAX, -5));
    l.window_size = Some((i32::MAX, -7));
    assert_eq!(window_bounds(&Some(l)), (i32::MAX as i64, -5, 2 * i32::MAX as i64, -12));
}

#[test]
fn background_line_present() {
    let script = layout_script_for(&plan(Some(layout(true)), false));
    assert!(script.contains("set background picture of viewOptions to file \".background:background.png\""));
}

#[test]
fn mount_point_with_spaces() {
    let out = "/dev/disk4          \tGUID_partition_scheme          \t\n/dev/disk4s1        \tApple_HFS                      \t/Volumes/My App 1.0\n";
    assert_eq!(parse_mount_point(out), Some("/Volumes/My App 1.0".to_string()));
}

#[test]
fn mount_point_first_matching_line_and_crlf() {
    let out = "header\r\n/dev/disk2s1\tApple_HFS\t/Volumes/First\r\n/dev/disk3s1\tApple_HFS\t/Volumes/Second\r\n";
    assert_eq!(parse_mount_point(out), Some("/Volumes/First".to_string()));
    let last = "/dev/disk2s1\tApple_HFS\t/Volumes/Tail";
    assert_eq!(parse_mount_point(last), Some("/Volumes/Tail".to_string()));
}

#[test]
fn mount_point_missing() {
    assert_eq!(parse_mount_point(""), None);
    assert_eq!(parse_mount_point("/dev/disk2\tGUID_partition_scheme\n"), None);
}

fn args(a: &DmgAction) -> (String, Vec<String>) {
    match a {
        DmgAction::Run { program, args } | DmgAction::Capture { program, args } => (program.clone(), args.clone()),
        other => (format!("{:?}", other), Vec::new()),
    }
}

#[test]
fn driver_full_run_with_icon_and_background() {
    let ctx = Context::new("/p/Cargo.toml".to_string(), false);
    let p = dmg_plan(&ctx, &plan(Some(layout(true)), true), "/tmp");
    assert_eq!(p.temp_image, "/p/setup/demo-macos-1.0.temp.dmg");
    assert_eq!(p.output_image, "/p/setup/demo-macos-1.0.dmg");
    assert_eq!(p.background, Some("/p/bg.png".to_string()));
    assert_eq!(p.volume_icon, Some("/tmp/emerge-demo/Demo.app/Contents/Resources/icon.icns".to_string()));
    let (mut d, first) = DmgDriver::start(p);
    let (prog, a) = args(&first);
    assert_eq!(prog, "hdiutil");
    assert_eq!(a[0], "create");
    assert_eq!(a[2], "/tmp/emerge-demo");
    assert_eq!(a[4], "Demo");
    assert_eq!(a[a.len() - 1], "/p/setup/demo-macos-1.0.temp.dmg");

    let attach = d.advance(DmgEvent::Completed);
    assert!(matches!(attach, DmgAction::Capture { .. }));
    let a = d.advance(DmgEvent::Captured("/dev/disk5s1\tApple_HFS\t/Volumes/Demo 1\n".to_string()));
    assert_eq!(d.mount, "/Volumes/Demo 1");
    assert!(matches!(&a, DmgAction::CreateDir(p) if p == "/Volumes/Demo 1/.background"));
    let a = d.advance(DmgEvent::Completed);
    assert!(matches!(&a, DmgAction::CopyFile { source, destination } if source == "/p/bg.png" && destination == "/Volumes/Demo 1/.background/background.png"));
    let a = d.advance(DmgEvent::Completed);
    assert!(matches!(&a, DmgAction::WriteFile { path, .. } if path == "/Volumes/Demo 1/.setup_script.applescript"));
    let a = d.advance(DmgEvent::Completed);
    assert_eq!(args(&a), ("osascript".to_string(), vec!["/Volumes/Demo 1/.setup_script.applescript".to_string()]));
    let a = d.advance(DmgEvent::Completed);
    assert!(matches!(a, DmgAction::RemoveFile(_)));
    let a = d.advance(DmgEvent::Completed);
    assert_eq!(args(&a), ("sync".to_string(), Vec::new()));
    let a = d.advance(DmgEvent::Completed);
    assert!(matches!(a, DmgAction::Pause { millis: 500 }));
    let a = d.advance(DmgEvent::Completed);
    assert_eq!(args(&a), ("hdiutil".to_string(), vec!["detach".to_string(), "/Volumes/Demo 1".to_string()]));
    let a = d.advance(DmgEvent::Completed);
    let (prog, a) = args(&a);
    assert_eq!(prog, "hdiutil");
    assert_eq!(a[0], "convert");
    assert_eq!(a[a.len() - 1], "/p/setup/demo-macos-1.0.dmg");
    let a = d.advance(DmgEvent::Completed);
    assert!(matches!(a, DmgAction::Capture { .. }));
    let a = d.advance(DmgEvent::Captured("/dev/disk6s1\tApple_HFS\t/Volumes/Demo\n".to_string()));
    assert!(matches!(&a, DmgAction::CopyFile { destination, .. } if destination == "/Volumes/Demo/.VolumeIcon.icns"));
    let a = d.advance(DmgEvent::Completed);
    assert_eq!(args(&a), ("SetFile".to_string(), vec!["-a".to_string(), "C".to_string(), "/Volumes/Demo".to_string()]));
    let _sync = d.advance(DmgEvent::Completed);
    let _pause = d.advance(DmgEvent::Completed);
    let a = d.advance(DmgEvent::Completed);
    assert_eq!(args(&a), ("hdiutil".to_string(), vec!["detach".to_string(), "/Volumes/Demo".to_string()]));
    let a = d.advance(DmgEvent::Completed);
    assert!(matches!(&a, DmgAction::RemoveFile(p) if p == "/p/setup/demo-macos-1.0.temp.dmg"));
    let a = d.advance(DmgEvent::Completed);
    assert!(matches!(a, DmgAction::Finished));
    assert_eq!(d.stage, DmgStage::Done);
}

#[test]
fn driver_skips_optional_sessions() {
    let ctx = Context::new("/p/Cargo.toml".to_string(), false);
    let p = dmg_plan(&ctx, &plan(None, false), "/tmp");
    let (mut d, _) = DmgDriver::start(p);
    d.advance(DmgEvent::Completed);
    let a = d.advance(DmgEvent::Captured("/dev/disk5s1\tApple_HFS\t/Volumes/Demo\n".to_string()));
    assert!(matches!(a, DmgAction::WriteFile { .. }));
    for _ in 0..6 {
        d.advance(DmgEvent::Completed);
    }
    assert_eq!(d.stage, DmgStage::Compress);
    let a = d.advance(DmgEvent::Completed);
    assert!(matches!(a, DmgAction::RemoveFile(_)));
    assert_eq!(d.stage, DmgStage::Cleanup);
}

#[test]
fn driver_aborts_on_failure() {
    let ctx = Context::new("/p/Cargo.toml".to_string(), false);
    let (mut d, _) = DmgDriver::start(dmg_plan(&ctx, &plan(None, false), "/tmp"));
    let a = d.advance(DmgEvent::Failed(Error::CommandFailed("hdiutil create failed".to_string())));
    assert!(matches!(&a, DmgAction::Abort(Error::CommandFailed(m)) if m == "hdiutil create failed"));
    assert_eq!(d.stage, DmgStage::Failed);
    assert!(matches!(d.advance(DmgEvent::Completed), DmgAction::Finished));
}

#[test]
fn driver_aborts_without_mount_point() {
    let ctx = Context::new("/p/Cargo.toml".to_string(), false);
    let (mut d, _) = DmgDriver::start(dmg_plan(&ctx, &plan(None, false), "/tmp"));
    d.advance(DmgEvent::Completed);
    let a = d.advance(DmgEvent::Captured("/dev/disk5\tGUID_partition_scheme\n".to_string()));
    assert!(matches!(&a, DmgAction::Abort(Error::Custom(_))));
    assert_eq!(d.stage, DmgStage::Failed);
}
