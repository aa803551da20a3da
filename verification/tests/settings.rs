use clearline::settings::{
    default_suppressor_mode, suppression_strength_from_setting, suppression_strength_to_setting,
    suppressor_mode_from_setting, suppressor_mode_to_setting, PersistedSettings, SettingsError,
    SettingsStore, MODE_HIGH_QUALITY, MODE_LOW_LATENCY, OUTPUT_TARGET_VB_CABLE, STRENGTH_BALANCED,
    STRENGTH_GENTLE, STRENGTH_STRONG,
};
use clearline::suppressor::{SuppressionStrength, SuppressorMode};
use clearline::update::{
    check_outcome, download_outcome, eq_ignore_ascii_case, installer_checksum_matches,
    is_newer_version, parse_version, upper_hex_string, UpdateEvent, UpdateManifest,
};
use clearline::windows_settings::{
    settings_uri_launch_args, sound_settings_uri, startup_change_result, startup_query_args,
    startup_registry_args, startup_run_command, WindowsSettingsError,
};

#[test]
fn persisted_settings_defaults_are_safe() {
    let settings = PersistedSettings::default();

    assert_eq!(settings.version, 2);
    assert_eq!(settings.output_target, OUTPUT_TARGET_VB_CABLE);
    assert_eq!(settings.suppressor_mode, "high_quality");
    assert_eq!(settings.suppression_strength, "balanced");
    assert!(!settings.wind_noise_reduction_enabled);
    assert!(settings.echo_cancellation_enabled);
    assert!(settings.noise_suppression_enabled);
    assert!(settings.microphone_boost_enabled);
    assert!(!settings.start_on_login_enabled);
    assert!(settings.deepfilter_model_dir.is_empty());
}

#[test]
fn settings_defaults_to_high_quality_and_aec() {
    let settings = PersistedSettings::default();

    assert_eq!(settings.suppressor_mode, MODE_HIGH_QUALITY);
    assert!(settings.echo_cancellation_enabled);
    assert_eq!(default_suppressor_mode(), MODE_HIGH_QUALITY);
    assert_eq!(suppressor_mode_from_setting(MODE_LOW_LATENCY), SuppressorMode::HighQuality);
    assert_eq!(suppressor_mode_from_setting("unknown"), SuppressorMode::HighQuality);
}

#[test]
fn settings_parse_modes_and_strengths_with_defaults() {
    assert_eq!(suppressor_mode_to_setting(SuppressorMode::LowLatency), MODE_HIGH_QUALITY);
    assert_eq!(suppressor_mode_to_setting(SuppressorMode::HighQuality), MODE_HIGH_QUALITY);
    assert_eq!(suppressor_mode_from_setting(MODE_HIGH_QUALITY), SuppressorMode::HighQuality);
    assert_eq!(suppressor_mode_from_setting("unknown"), SuppressorMode::HighQuality);

    assert_eq!(suppression_strength_to_setting(SuppressionStrength::Gentle), STRENGTH_GENTLE);
    assert_eq!(suppression_strength_to_setting(SuppressionStrength::Balanced), STRENGTH_BALANCED);
    assert_eq!(suppression_strength_to_setting(SuppressionStrength::Strong), STRENGTH_STRONG);
    assert_eq!(suppression_strength_from_setting(STRENGTH_STRONG), SuppressionStrength::Strong);
    assert_eq!(suppression_strength_from_setting("unknown"), SuppressionStrength::Balanced);
}

#[test]
fn strength_setting_round_trips() {
    for strength in [SuppressionStrength::Gentle, SuppressionStrength::Balanced, SuppressionStrength::Strong] {
        assert_eq!(suppression_strength_from_setting(suppression_strength_to_setting(strength)), strength);
    }
}

#[test]
fn settings_store_keeps_its_path_and_errors_read_clearly() {
    let path = std::path::PathBuf::from("/tmp/clearline-settings.json");
    let store = SettingsStore::from_path(path.clone());
    assert_eq!(store.path(), &path);

    assert_eq!(SettingsError::Io("denied".to_string()).message(), "settings io error: denied");
    assert_eq!(
        SettingsError::Json("expected value".to_string()).message(),
        "failed to parse settings: expected value"
    );
    assert_eq!(SettingsError::ConfigDirUnavailable.message(), "settings directory is unavailable");
}

#[test]
fn compares_release_versions() {
    assert!(is_newer_version("0.2.0", "0.1.9").unwrap());
    assert!(is_newer_version("v1.0.0", "0.9.9").unwrap());
    assert!(!is_newer_version("0.1.0", "0.1.0").unwrap());
    assert!(!is_newer_version("0.0.9", "0.1.0").unwrap());
}

#[test]
fn version_parsing_takes_prefix_suffix_and_missing_parts() {
    assert_eq!(parse_version(" v1.2.3-beta.1 "), Ok((1, 2, 3)));
    assert_eq!(parse_version("2"), Ok((2, 0, 0)));
    assert_eq!(parse_version("1.x").unwrap_err().message(), "invalid digit found in string");
    assert_eq!(parse_version("1.2.3.4").unwrap_err().message(), "版本号无效：1.2.3.4");
    assert_eq!(
        parse_version("4294967296").unwrap_err().message(),
        "number too large to fit in target type"
    );
}

fn manifest(version: &str) -> UpdateManifest {
    UpdateManifest {
        version: version.to_string(),
        installer_url: "https://example.invalid/setup.exe".to_string(),
        sha256: "AB".to_string(),
        notes: vec![],
    }
}

#[test]
fn update_check_reports_only_newer_releases() {
    match check_outcome(Ok(manifest("0.3.0")), "0.2.9") {
        UpdateEvent::Checked(Some(m)) => assert_eq!(m.version, "0.3.0"),
        other => panic!("unexpected event: {other:?}"),
    }
    assert!(matches!(check_outcome(Ok(manifest("0.2.9")), "0.2.9"), UpdateEvent::Checked(None)));
    match check_outcome(Ok(manifest("1.2.3.4")), "0.2.9") {
        UpdateEvent::Failed(message) => assert_eq!(message, "版本号无效：1.2.3.4"),
        other => panic!("unexpected event: {other:?}"),
    }
    match check_outcome(Err("无法连接 GitHub Releases".to_string()), "0.2.9") {
        UpdateEvent::Failed(message) => assert_eq!(message, "无法连接 GitHub Releases"),
        other => panic!("unexpected event: {other:?}"),
    }
    match download_outcome(manifest("0.3.0"), Err("下载安装包失败".to_string())) {
        UpdateEvent::Failed(message) => assert_eq!(message, "下载安装包失败"),
        other => panic!("unexpected event: {other:?}"),
    }
}

#[test]
fn installer_checksum_is_compared_as_uppercase_hex_ignoring_case() {
    assert_eq!(upper_hex_string(&[0x00, 0xab, 0x5f]), "00AB5F");
    assert!(eq_ignore_ascii_case("00AB5F", "00ab5f"));
    assert!(!eq_ignore_ascii_case("00AB5F", "00ab5"));

    let empty_sha256 = "e3b0c44298fc1c149afbf4c8996fb92427ae41e4649b934ca495991b7852b855";
    assert!(installer_checksum_matches(b"", &format!("  {empty_sha256}\n")));
    let abc_sha256 = "BA7816BF8F01CFEA414140DE5DAE2223B00361A396177A9CB410FF61F20015AD";
    assert!(installer_checksum_matches(b"abc", abc_sha256));
    assert!(!installer_checksum_matches(b"abd", abc_sha256));
}

#[test]
fn sound_settings_uri_targets_windows_sound_settings() {
    assert_eq!(sound_settings_uri(), "ms-settings:sound");
}

#[test]
fn windows_settings_errors_read_in_chinese() {
    assert!(WindowsSettingsError::UnsupportedPlatform.message().contains("仅 Windows 可用"));
    assert_eq!(
        WindowsSettingsError::Io("denied".to_string()).message(),
        "打开 Windows 设置失败：denied"
    );
}

#[test]
fn startup_entry_commands_match_the_registry_layout() {
    assert_eq!(settings_uri_launch_args("ms-settings:sound"), vec!["/C", "start", "", "ms-settings:sound"]);
    let command = startup_run_command(r"C:\Program Files\ClearLine\ClearLine.exe");
    assert_eq!(command, r#""C:\Program Files\ClearLine\ClearLine.exe" --minimized"#);
    assert_eq!(
        startup_registry_args(true, &command),
        vec![
            "add",
            r"HKCU\Software\Microsoft\Windows\CurrentVersion\Run",
            "/v",
            "ClearLine",
            "/t",
            "REG_SZ",
            "/d",
            command.as_str(),
            "/f",
        ]
    );
    assert_eq!(
        startup_registry_args(false, &command),
        vec!["delete", r"HKCU\Software\Microsoft\Windows\CurrentVersion\Run", "/v", "ClearLine", "/f"]
    );
    assert_eq!(
        startup_query_args(),
        vec!["query", r"HKCU\Software\Microsoft\Windows\CurrentVersion\Run", "/v", "ClearLine"]
    );
}

#[test]
fn startup_change_result_accepts_failed_removal_only() {
    assert_eq!(startup_change_result(true, true, "exit code: 0"), Ok(()));
    assert_eq!(startup_change_result(false, false, "exit code: 1"), Ok(()));
    assert_eq!(
        startup_change_result(true, false, "exit code: 1"),
        Err(WindowsSettingsError::Io("reg.exe exit status exit code: 1".to_string()))
    );
}
