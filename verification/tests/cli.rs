use std::path::{Path, PathBuf};
use std::time::Duration;

use clearline::lab_cli::{device_list_lines, parse_args, select_input_device, Command, RecordOptions};
use clearline::setup_cli::{
    append_start_on_login_choice_args, append_uninstall_choice_args, choice_without_prompt,
    default_mode_for_exe, default_mode_for_stem, elevation_args, estimated_size_kb, expect_value, join_command_line,
    needs_install_wizard, needs_interactive_install_dir, parse_args_for_exe, quote_arg,
    uninstall_registry_strings, uninstaller_relative_path, usage, SetupCommand, SetupMode,
};

#[test]
fn parses_list_command() {
    assert_eq!(parse_args(&["clearline-lab", "list"]), Ok(Command::List));
}

#[test]
fn parses_record_command_with_long_flags() {
    let command = parse_args(&[
        "clearline-lab",
        "record",
        "--device",
        "mic",
        "--seconds",
        "2",
        "--out",
        "out.wav",
    ]);

    assert_eq!(
        command,
        Ok(Command::Record(RecordOptions {
            device_query: "mic".to_owned(),
            duration: Duration::from_secs(2),
            out: PathBuf::from("out.wav"),
        }))
    );
}

#[test]
fn parses_record_command_with_short_flags() {
    let command = parse_args(&[
        "clearline-lab",
        "record",
        "-d",
        "1",
        "-s",
        "5",
        "-o",
        "artifacts/lab/reference.wav",
    ]);

    assert_eq!(
        command,
        Ok(Command::Record(RecordOptions {
            device_query: "1".to_owned(),
            duration: Duration::from_secs(5),
            out: PathBuf::from("artifacts/lab/reference.wav"),
        }))
    );
}

#[test]
fn rejects_missing_record_fields() {
    let error = parse_args(&["clearline-lab", "record", "--device", "mic"])
        .expect_err("missing fields should fail");

    assert!(error.contains("missing --seconds"), "{error}");
}

#[test]
fn rejects_zero_seconds() {
    let error = parse_args(&[
        "clearline-lab",
        "record",
        "--device",
        "mic",
        "--seconds",
        "0",
        "--out",
        "out.wav",
    ])
    .expect_err("zero seconds should fail");

    assert!(error.contains("greater than zero"), "{error}");
}

#[test]
fn lab_command_line_errors_name_the_argument() {
    assert_eq!(parse_args(&["clearline-lab"]), Ok(Command::Help));
    assert_eq!(parse_args(&["clearline-lab", "-h"]), Ok(Command::Help));
    assert_eq!(parse_args(&["clearline-lab", "list", "x"]), Err("unexpected argument: x".to_string()));
    assert_eq!(parse_args(&["clearline-lab", "play"]), Err("unknown command: play".to_string()));
    assert_eq!(
        parse_args(&["clearline-lab", "record", "--device", "  "]),
        Err("--device requires a value".to_string())
    );
    assert_eq!(
        parse_args(&["clearline-lab", "record", "-s", "two"]),
        Err("--seconds must be a positive integer: two".to_string())
    );
    assert_eq!(
        parse_args(&["clearline-lab", "record", "--volume", "2"]),
        Err("unexpected record argument: --volume".to_string())
    );
    assert_eq!(parse_args(&["clearline-lab", "record", "--help"]), Ok(Command::Help));
}

#[test]
fn recorder_picks_devices_by_index_or_unique_name() {
    let names = vec!["MCHOSE V9".to_string(), "USB Mic".to_string(), "usb headset".to_string()];

    assert_eq!(select_input_device(&names, "1"), Ok(1));
    assert_eq!(select_input_device(&names, "mchose"), Ok(0));
    assert_eq!(
        select_input_device(&names, "7"),
        Err("input device index 7 was not found".to_string())
    );
    assert_eq!(select_input_device(&names, "Zoom"), Err("no input device matched 'zoom'".to_string()));
    assert_eq!(
        select_input_device(&names, "USB"),
        Err("multiple input devices matched 'usb':\n  - USB Mic\n  - usb headset\nUse an index from `clearline-lab list`."
            .to_string())
    );
}

#[test]
fn device_listing_marks_the_default() {
    assert_eq!(device_list_lines(&[], None), vec!["No input devices found."]);
    let names = vec!["Mic A".to_string(), "Mic B".to_string()];
    assert_eq!(
        device_list_lines(&names, Some(1)),
        vec!["Input capture devices:", "  [0] Mic A", "  [1] Mic B (default)"]
    );
}

fn parse(values: &[&str]) -> Result<SetupCommand, String> {
    parse_args_for_exe("ClearLineSetup.exe", values)
}

#[test]
fn defaults_to_install() {
    assert_eq!(
        parse(&[]).unwrap(),
        SetupCommand::Install { target_dir: None, quiet: false, start_on_login: None }
    );
}

#[test]
fn uninstall_exe_defaults_to_uninstall_without_command_line() {
    assert_eq!(
        parse_args_for_exe(r"C:\Program Files\ClearLine\installer\ClearLineUninstall.exe", &[]).unwrap(),
        SetupCommand::Uninstall { target_dir: None, quiet: false, remove_vb_cable: None }
    );
}

#[test]
fn interactive_install_prompts_for_target_before_elevation() {
    assert!(needs_interactive_install_dir(None, false));
    assert!(!needs_interactive_install_dir(None, true));
    assert!(!needs_interactive_install_dir(Some(&PathBuf::from(r"C:\Program Files\ClearLine")), false));
}

#[test]
fn usage_mentions_gui_uninstaller() {
    assert!(usage().contains("ClearLineUninstall.exe"));
    assert!(usage().contains("选择安装路径"));
    assert!(usage().contains("--start-on-login"));
    assert!(usage().contains("--no-start-on-login"));
}

#[test]
fn uninstall_registry_points_to_gui_uninstaller() {
    let (dir, exe) = uninstaller_relative_path();
    let uninstaller = Path::new(r"C:\Program Files\ClearLine").join(dir).join(exe);
    let (uninstall, quiet_uninstall) = uninstall_registry_strings(&uninstaller.display().to_string());

    assert!(uninstall.contains("ClearLineUninstall.exe"));
    assert!(!uninstall.contains("--uninstall"));
    assert_eq!(
        quiet_uninstall,
        r#""C:\Program Files\ClearLine/installer/ClearLineUninstall.exe" --quiet"#
    );
}

#[test]
fn parses_uninstall_quiet_with_target() {
    assert_eq!(
        parse(&["--uninstall", "--quiet", "--target", r"C:\ClearLine"]).unwrap(),
        SetupCommand::Uninstall {
            target_dir: Some(PathBuf::from(r"C:\ClearLine")),
            quiet: true,
            remove_vb_cable: None
        }
    );
}

#[test]
fn parses_uninstall_vb_cable_choices() {
    assert_eq!(
        parse(&["--uninstall", "--remove-vb-cable"]).unwrap(),
        SetupCommand::Uninstall { target_dir: None, quiet: false, remove_vb_cable: Some(true) }
    );
    assert_eq!(
        parse(&["--uninstall", "--keep-vb-cable"]).unwrap(),
        SetupCommand::Uninstall { target_dir: None, quiet: false, remove_vb_cable: Some(false) }
    );
}

#[test]
fn parses_install_startup_choices() {
    assert_eq!(
        parse(&["--install", "--start-on-login"]).unwrap(),
        SetupCommand::Install { target_dir: None, quiet: false, start_on_login: Some(true) }
    );
    assert_eq!(
        parse(&["--install", "--no-start-on-login"]).unwrap(),
        SetupCommand::Install { target_dir: None, quiet: false, start_on_login: Some(false) }
    );
}

#[test]
fn elevation_args_preserve_target_and_quiet_mode() {
    assert_eq!(
        elevation_args(&["--install"], Some(r"C:\Program Files\ClearLine"), true),
        vec![
            "--install".to_string(),
            "--target".to_string(),
            r"C:\Program Files\ClearLine".to_string(),
            "--quiet".to_string()
        ]
    );
}

#[test]
fn parses_cleanup_install_dir_quiet() {
    assert_eq!(
        parse(&["--cleanup-install-dir", r"C:\Program Files\ClearLine", "--quiet"]).unwrap(),
        SetupCommand::CleanupInstallDir {
            target_dir: PathBuf::from(r"C:\Program Files\ClearLine"),
            quiet: true
        }
    );
}

#[test]
fn setup_arguments_report_errors() {
    assert_eq!(parse(&["--help"]).unwrap(), SetupCommand::Help);
    assert_eq!(parse(&["--target"]), Err("--target requires a value".to_string()));
    assert_eq!(parse(&["--target", "--quiet"]), Err("--target requires a value".to_string()));
    assert_eq!(
        parse(&["--bogus"]),
        Err(format!("unknown argument: --bogus\n{}", usage()))
    );
    assert_eq!(default_mode_for_stem(Some("ClearLineUNINSTALL")), SetupMode::Uninstall);
    assert_eq!(default_mode_for_stem(None), SetupMode::Install);
    assert_eq!(expect_value(Some("x"), "--target"), Ok("x".to_string()));
    assert_eq!(expect_value(None, "--target"), Err("--target requires a value".to_string()));
}

#[test]
fn installer_choices_and_command_lines() {
    let mut args = vec!["--uninstall".to_string()];
    append_uninstall_choice_args(&mut args, Some(false));
    append_start_on_login_choice_args(&mut args, Some(true));
    append_start_on_login_choice_args(&mut args, None);
    assert_eq!(args, vec!["--uninstall", "--keep-vb-cable", "--start-on-login"]);

    assert_eq!(choice_without_prompt(Some(true), true), Some(true));
    assert_eq!(choice_without_prompt(None, true), Some(false));
    assert_eq!(choice_without_prompt(None, false), None);
    assert!(needs_install_wizard(true, false, None));
    assert!(!needs_install_wizard(true, false, Some(false)));
    assert!(!needs_install_wizard(false, true, None));

    assert_eq!(quote_arg("plain"), "plain");
    assert_eq!(quote_arg(r"C:\Program Files"), r#""C:\Program Files""#);
    assert_eq!(quote_arg(r#"say "hi""#), r#""say \"hi\"""#);
    assert_eq!(
        join_command_line(&["--target".to_string(), r"C:\A B".to_string()]),
        r#"--target "C:\A B""#
    );
    assert_eq!(estimated_size_kb(100), 1);
    assert_eq!(estimated_size_kb(10_240), 10);
}

#[test]
fn bare_executable_names_pick_the_mode_from_their_stem() {
    assert_eq!(default_mode_for_exe("ClearLineUninstall.exe"), SetupMode::Uninstall);
    assert_eq!(default_mode_for_exe("CLEARLINEUNINSTALL"), SetupMode::Uninstall);
    assert_eq!(default_mode_for_exe("ClearLineSetup.exe"), SetupMode::Install);
    assert_eq!(default_mode_for_exe("setup.uninstall"), SetupMode::Install);
}
