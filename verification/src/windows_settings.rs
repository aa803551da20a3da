//! The Windows settings the app touches: the sound settings page it opens, and the per-user
//! `Run` registry entry that starts it on login. This module builds the commands and reads
//! their outcome; running them is the caller's part.
use vstd::prelude::*;
use vstd::string::*;
use crate::text::concat2;

verus! {

broadcast use vstd::string::group_string_axioms;

pub const SOUND_SETTINGS_URI: &'static str = "ms-settings:sound";

/// The flag that starts the app hidden in the tray.
pub const MINIMIZED_ARG: &'static str = "--minimized";

/// The registry key that holds per-user startup programs.
pub const RUN_KEY: &'static str = "HKCU\\Software\\Microsoft\\Windows\\CurrentVersion\\Run";

/// The name of the app's value under [`RUN_KEY`].
pub const RUN_VALUE_NAME: &'static str = "ClearLine";

/// The URI of the Windows sound settings page.
pub fn sound_settings_uri() -> (r: &'static str)
    ensures
        r@ == "ms-settings:sound"@,
{
    SOUND_SETTINGS_URI
}

/// Why a settings action failed.
#[derive(Debug, Clone, PartialEq, Eq)]
pub enum WindowsSettingsError {
    /// The command could not run or reported failure; the text says why.
    Io(String),
    /// Not running on Windows.
    UnsupportedPlatform,
}

impl WindowsSettingsError {
    /// The message shown to the user.
    pub fn message(&self) -> (r: String)
        ensures
            r@ == match self {
                WindowsSettingsError::Io(e) => "打开 Windows 设置失败："@ + e@,
                WindowsSettingsError::UnsupportedPlatform => "仅 Windows 可用"@,
            },
    {
        match self {
            WindowsSettingsError::Io(e) => concat2("打开 Windows 设置失败：", e.as_str()),
            WindowsSettingsError::UnsupportedPlatform => "仅 Windows 可用".to_string(),
        }
    }
}

/// The arguments of `cmd` that open a settings URI: `/C start "" <uri>`.
pub fn settings_uri_launch_args(uri: &str) -> (r: Vec<String>)
    ensures
        r@.map_values(|s: String| s@) == seq!["/C"@, "start"@, ""@, uri@],
{
    let mut args: Vec<String> = Vec::new();
    args.push("/C".to_string());
    args.push("start".to_string());
    args.push("".to_string());
    args.push(uri.to_string());
    assert(args@.map_values(|s: String| s@) =~= seq!["/C"@, "start"@, ""@, uri@]);
    args
}

/// The command the `Run` entry holds: the quoted executable and [`MINIMIZED_ARG`].
pub fn startup_run_command(exe: &str) -> (r: String)
    ensures
        r@ == "\""@ + exe@ + "\" --minimized"@,
{
    let mut command = String::from_str("\"");
    command.append(exe);
    command.append("\" --minimized");
    command
}

/// The arguments of `reg.exe` that add the `Run` entry holding `command`, or delete it.
pub fn startup_registry_args(enabled: bool, command: &str) -> (r: Vec<String>)
    ensures
        enabled ==> r@.map_values(|s: String| s@) == seq![
            "add"@,
            RUN_KEY@,
            "/v"@,
            RUN_VALUE_NAME@,
            "/t"@,
            "REG_SZ"@,
            "/d"@,
            command@,
            "/f"@,
        ],
        !enabled ==> r@.map_values(|s: String| s@) == seq![
            "delete"@,
            RUN_KEY@,
            "/v"@,
            RUN_VALUE_NAME@,
            "/f"@,
        ],
{
    let mut args: Vec<String> = Vec::new();
    if enabled {
        args.push("add".to_string());
        args.push(RUN_KEY.to_string());
        args.push("/v".to_string());
        args.push(RUN_VALUE_NAME.to_string());
        args.push("/t".to_string());
        args.push("REG_SZ".to_string());
        args.push("/d".to_string());
        args.push(command.to_string());
        args.push("/f".to_string());
        assert(args@.map_values(|s: String| s@) =~= seq![
            "add"@,
            RUN_KEY@,
            "/v"@,
            RUN_VALUE_NAME@,
            "/t"@,
            "REG_SZ"@,
            "/d"@,
            command@,
            "/f"@,
        ]);
    } else {
        args.push("delete".to_string());
        args.push(RUN_KEY.to_string());
        args.push("/v".to_string());
        args.push(RUN_VALUE_NAME.to_string());
        args.push("/f".to_string());
        assert(args@.map_values(|s: String| s@) =~= seq![
            "delete"@,
            RUN_KEY@,
            "/v"@,
            RUN_VALUE_NAME@,
            "/f"@,
        ]);
    }
    args
}

/// The arguments of `reg.exe` that ask whether the `Run` entry exists.
pub fn startup_query_args() -> (r: Vec<String>)
    ensures
        r@.map_values(|s: String| s@) == seq!["query"@, RUN_KEY@, "/v"@, RUN_VALUE_NAME@],
{
    let mut args: Vec<String> = Vec::new();
    args.push("query".to_string());
    args.push(RUN_KEY.to_string());
    args.push("/v".to_string());
    args.push(RUN_VALUE_NAME.to_string());
    assert(args@.map_values(|s: String| s@) =~= seq!["query"@, RUN_KEY@, "/v"@, RUN_VALUE_NAME@]);
    args
}

/// What a finished `reg.exe` run means for a startup change: removing the entry always counts
/// as done (it may not have existed); adding it must have succeeded. `status` is the exit
/// status as `reg.exe` reported it.
pub fn startup_change_result(enabled: bool, succeeded: bool, status: &str) -> (r: Result<
    (),
    WindowsSettingsError,
>)
    ensures
        (succeeded || !enabled) <==> r is Ok,
        !(succeeded || !enabled) ==> (r matches Err(WindowsSettingsError::Io(m)) && m@
            == "reg.exe exit status "@ + status@),
{
    if succeeded || !enabled {
        Ok(())
    } else {
        Err(WindowsSettingsError::Io(concat2("reg.exe exit status ", status)))
    }
}

} // verus!
