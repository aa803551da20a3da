//! The installer's command line and the decisions it takes before touching the system: which
//! mode it runs in, which arguments the elevated copy gets, what it writes to the registry.
use vstd::prelude::*;
use vstd::string::*;
use crate::paths::{path_from_string, path_of};
use crate::text::{ascii_lowercase, chars_of, concat2, contains_seq, lowercase_chars, str_eq};

verus! {

broadcast use vstd::string::group_string_axioms;

/// What the installer was asked to do.
#[derive(Debug, Clone, PartialEq, Eq)]
pub enum SetupCommand {
    Install { target_dir: Option<std::path::PathBuf>, quiet: bool, start_on_login: Option<bool> },
    Uninstall { target_dir: Option<std::path::PathBuf>, quiet: bool, remove_vb_cable: Option<bool> },
    CleanupInstallDir { target_dir: std::path::PathBuf, quiet: bool },
    Help,
}

/// The mode an argument list selects, before its options are applied.
#[derive(Debug, Clone, Copy, PartialEq, Eq, Structural)]
pub enum SetupMode {
    Install,
    Uninstall,
    Cleanup,
}

/// A command line's meaning, with the texts it carries.
pub enum SetupCommandSpec {
    Install { target_dir: Option<Seq<char>>, quiet: bool, start_on_login: Option<bool> },
    Uninstall { target_dir: Option<Seq<char>>, quiet: bool, remove_vb_cable: Option<bool> },
    CleanupInstallDir { target_dir: Seq<char>, quiet: bool },
    Help,
}

/// The options collected while the arguments are read.
pub struct SetupArgsState {
    pub mode: SetupMode,
    pub target_dir: Option<Seq<char>>,
    pub cleanup_dir: Option<Seq<char>>,
    pub quiet: bool,
    pub remove_vb_cable: Option<bool>,
    pub start_on_login: Option<bool>,
}

pub open spec fn path_opt(s: Option<Seq<char>>) -> Option<std::path::PathBuf> {
    match s {
        Some(t) => Some(path_of(t)),
        None => None,
    }
}

/// `c` is the command that `s` describes.
pub open spec fn setup_command_is(c: SetupCommand, s: SetupCommandSpec) -> bool {
    match s {
        SetupCommandSpec::Install { target_dir, quiet, start_on_login } => c == SetupCommand::Install {
            target_dir: path_opt(target_dir),
            quiet,
            start_on_login,
        },
        SetupCommandSpec::Uninstall { target_dir, quiet, remove_vb_cable } => c == SetupCommand::Uninstall {
            target_dir: path_opt(target_dir),
            quiet,
            remove_vb_cable,
        },
        SetupCommandSpec::CleanupInstallDir { target_dir, quiet } => c == SetupCommand::CleanupInstallDir {
            target_dir: path_of(target_dir),
            quiet,
        },
        SetupCommandSpec::Help => c == SetupCommand::Help,
    }
}

/// The usage text.
pub open spec fn usage_text() -> Seq<char> {
    "usage:\n  ClearLineSetup.exe [--install] [--target <dir>] [--quiet] [--start-on-login|--no-start-on-login]\n  ClearLineSetup.exe --uninstall [--target <dir>] [--quiet] [--remove-vb-cable|--keep-vb-cable]\n  ClearLineUninstall.exe\n\n双击 ClearLineSetup.exe 会显示安装界面、选择安装路径和开机自启动。"@
}

/// How to call the installer.
pub fn usage() -> (r: &'static str)
    ensures
        r@ == usage_text(),
{
    "usage:\n  ClearLineSetup.exe [--install] [--target <dir>] [--quiet] [--start-on-login|--no-start-on-login]\n  ClearLineSetup.exe --uninstall [--target <dir>] [--quiet] [--remove-vb-cable|--keep-vb-cable]\n  ClearLineUninstall.exe\n\n双击 ClearLineSetup.exe 会显示安装界面、选择安装路径和开机自启动。"
}

/// A value must not look like another flag.
pub open spec fn starts_with_dashes(s: Seq<char>) -> bool {
    s.len() >= 2 && s[0] == '-' && s[1] == '-'
}

/// The flag at `a[i]` takes the next argument as its value.
pub open spec fn has_flag_value(a: Seq<Seq<char>>, i: int) -> bool {
    i + 1 < a.len() && !starts_with_dashes(a[i + 1])
}

/// The command that the options collected in `st` make once every argument has been read.
pub open spec fn finish_setup_spec(st: SetupArgsState) -> Result<SetupCommandSpec, Seq<char>> {
    match st.mode {
        SetupMode::Install => Ok(
            SetupCommandSpec::Install {
                target_dir: st.target_dir,
                quiet: st.quiet,
                start_on_login: st.start_on_login,
            },
        ),
        SetupMode::Uninstall => Ok(
            SetupCommandSpec::Uninstall {
                target_dir: st.target_dir,
                quiet: st.quiet,
                remove_vb_cable: st.remove_vb_cable,
            },
        ),
        SetupMode::Cleanup => match st.cleanup_dir {
            None => Err("--cleanup-install-dir requires a directory"@),
            Some(d) => Ok(SetupCommandSpec::CleanupInstallDir { target_dir: d, quiet: st.quiet }),
        },
    }
}

/// The arguments read from position `i` on, with the options collected so far.
pub open spec fn setup_args_spec(a: Seq<Seq<char>>, i: int, st: SetupArgsState) -> Result<
    SetupCommandSpec,
    Seq<char>,
>
    decreases a.len() - i,
{
    if i < 0 || i >= a.len() {
        finish_setup_spec(st)
    } else {
        let arg = a[i];
        if arg == "--install"@ {
            setup_args_spec(a, i + 1, SetupArgsState { mode: SetupMode::Install, ..st })
        } else if arg == "--uninstall"@ {
            setup_args_spec(a, i + 1, SetupArgsState { mode: SetupMode::Uninstall, ..st })
        } else if arg == "--cleanup-install-dir"@ {
            if !has_flag_value(a, i) {
                Err("--cleanup-install-dir requires a value"@)
            } else {
                setup_args_spec(
                    a,
                    i + 2,
                    SetupArgsState { mode: SetupMode::Cleanup, cleanup_dir: Some(a[i + 1]), ..st },
                )
            }
        } else if arg == "--target"@ {
            if !has_flag_value(a, i) {
                Err("--target requires a value"@)
            } else {
                setup_args_spec(a, i + 2, SetupArgsState { target_dir: Some(a[i + 1]), ..st })
            }
        } else if arg == "--quiet"@ {
            setup_args_spec(a, i + 1, SetupArgsState { quiet: true, ..st })
        } else if arg == "--start-on-login"@ {
            setup_args_spec(a, i + 1, SetupArgsState { start_on_login: Some(true), ..st })
        } else if arg == "--no-start-on-login"@ {
            setup_args_spec(a, i + 1, SetupArgsState { start_on_login: Some(false), ..st })
        } else if arg == "--remove-vb-cable"@ {
            setup_args_spec(a, i + 1, SetupArgsState { remove_vb_cable: Some(true), ..st })
        } else if arg == "--keep-vb-cable"@ {
            setup_args_spec(a, i + 1, SetupArgsState { remove_vb_cable: Some(false), ..st })
        } else if arg == "--help"@ || arg == "-h"@ || arg == "/?"@ {
            Ok(SetupCommandSpec::Help)
        } else {
            Err("unknown argument: "@ + arg + "\n"@ + usage_text())
        }
    }
}

/// The starting state: the given mode, nothing else set.
pub open spec fn initial_setup_state(mode: SetupMode) -> SetupArgsState {
    SetupArgsState {
        mode,
        target_dir: None,
        cleanup_dir: None,
        quiet: false,
        remove_vb_cable: None,
        start_on_login: None,
    }
}

/// The texts of the arguments.
pub open spec fn setup_arg_texts(args: Seq<&str>) -> Seq<Seq<char>> {
    args.map_values(|a: &str| a@)
}

/// The result `r` is what the spec result `s` describes.
pub open spec fn setup_result_is(r: Result<SetupCommand, String>, s: Result<SetupCommandSpec, Seq<char>>) -> bool {
    match s {
        Ok(c) => r is Ok && setup_command_is(r->Ok_0, c),
        Err(e) => r is Err && r->Err_0@ == e,
    }
}

fn starts_with_two_dashes(s: &str) -> (r: bool)
    ensures
        r == starts_with_dashes(s@),
{
    let v = chars_of(s);
    v.len() >= 2 && v[0] == '-' && v[1] == '-'
}

fn path_option(s: Option<String>) -> (r: Option<std::path::PathBuf>)
    ensures
        r == path_opt(
            match s {
                Some(t) => Some(t@),
                None => None::<Seq<char>>,
            },
        ),
{
    match s {
        Some(t) => Some(path_from_string(t)),
        None => None,
    }
}

/// Parses the installer's arguments, starting from `mode`.
pub fn parse_setup_args(mode: SetupMode, args: &[&str]) -> (r: Result<SetupCommand, String>)
    ensures
        setup_result_is(r, setup_args_spec(setup_arg_texts(args@), 0, initial_setup_state(mode))),
{
    let ghost a = setup_arg_texts(args@);
    let ghost goal = setup_args_spec(a, 0, initial_setup_state(mode));
    let mut cur_mode = mode;
    let mut target_dir: Option<String> = None;
    let mut cleanup_dir: Option<String> = None;
    let mut quiet = false;
    let mut remove_vb_cable: Option<bool> = None;
    let mut start_on_login: Option<bool> = None;
    let mut i: usize = 0;
    while i < args.len()
        invariant
            i <= args.len(),
            a == setup_arg_texts(args@),
            a.len() == args.len(),
            goal == setup_args_spec(a, 0, initial_setup_state(mode)),
            setup_args_spec(
                a,
                i as int,
                SetupArgsState {
                    mode: cur_mode,
                    target_dir: match target_dir {
                        Some(t) => Some(t@),
                        None => None,
                    },
                    cleanup_dir: match cleanup_dir {
                        Some(t) => Some(t@),
                        None => None,
                    },
                    quiet,
                    remove_vb_cable,
                    start_on_login,
                },
            ) == goal,
        decreases args.len() - i,
    {
        let arg: &str = args[i];
        assert(a[i as int] == arg@);
        assert(i + 1 < args.len() ==> a[i + 1] == args@[i + 1]@);
        if str_eq(arg, "--install") {
            cur_mode = SetupMode::Install;
            i = i + 1;
        } else if str_eq(arg, "--uninstall") {
            cur_mode = SetupMode::Uninstall;
            i = i + 1;
        } else if str_eq(arg, "--cleanup-install-dir") {
            if i + 1 >= args.len() || starts_with_two_dashes(args[i + 1]) {
                return Err("--cleanup-install-dir requires a value".to_string());
            }
            assert(a[i + 1] == args[i + 1]@);
            cur_mode = SetupMode::Cleanup;
            cleanup_dir = Some(args[i + 1].to_string());
            i = i + 2;
        } else if str_eq(arg, "--target") {
            if i + 1 >= args.len() || starts_with_two_dashes(args[i + 1]) {
                return Err("--target requires a value".to_string());
            }
            assert(a[i + 1] == args[i + 1]@);
            target_dir = Some(args[i + 1].to_string());
            i = i + 2;
        } else if str_eq(arg, "--quiet") {
            quiet = true;
            i = i + 1;
        } else if str_eq(arg, "--start-on-login") {
            start_on_login = Some(true);
            i = i + 1;
        } else if str_eq(arg, "--no-start-on-login") {
            start_on_login = Some(false);
            i = i + 1;
        } else if str_eq(arg, "--remove-vb-cable") {
            remove_vb_cable = Some(true);
            i = i + 1;
        } else if str_eq(arg, "--keep-vb-cable") {
            remove_vb_cable = Some(false);
            i = i + 1;
        } else if str_eq(arg, "--help") || str_eq(arg, "-h") || str_eq(arg, "/?") {
            return Ok(SetupCommand::Help);
        } else {
            let mut m = concat2("unknown argument: ", arg);
            m.append("\n");
            m.append(usage());
            return Err(m);
        }
    }
    match cur_mode {
        SetupMode::Install => Ok(
            SetupCommand::Install { target_dir: path_option(target_dir), quiet, start_on_login },
        ),
        SetupMode::Uninstall => Ok(
            SetupCommand::Uninstall { target_dir: path_option(target_dir), quiet, remove_vb_cable },
        ),
        SetupMode::Cleanup => match cleanup_dir {
            None => Err("--cleanup-install-dir requires a directory".to_string()),
            Some(d) => Ok(SetupCommand::CleanupInstallDir { target_dir: path_from_string(d), quiet }),
        },
    }
}

/// The mode an executable starts in when no flag chooses one: uninstall when its file stem
/// mentions "uninstall" in any letter case, install otherwise.
pub open spec fn mode_for_stem(stem: Option<Seq<char>>) -> SetupMode {
    match stem {
        Some(t) => if contains_seq(ascii_lowercase(t), "uninstall"@) {
            SetupMode::Uninstall
        } else {
            SetupMode::Install
        },
        None => SetupMode::Install,
    }
}

/// Picks the default mode from the executable's file stem.
pub fn default_mode_for_stem(stem: Option<&str>) -> (r: SetupMode)
    ensures
        r == mode_for_stem(
            match stem {
                Some(t) => Some(t@),
                None => None::<Seq<char>>,
            },
        ),
{
    match stem {
        Some(t) => {
            let lower = lowercase_chars(&chars_of(t));
            let needle = chars_of("uninstall");
            if crate::text::contains_chars(&lower, &needle) {
                SetupMode::Uninstall
            } else {
                SetupMode::Install
            }
        },
        None => SetupMode::Install,
    }
}

/// A path text that is a single plain file name on every platform: not empty, not `.` or
/// `..`, and free of `/`, `\\` (separators) and `:` (which starts a drive prefix).
pub open spec fn is_bare_file_name(s: Seq<char>) -> bool {
    &&& s.len() > 0
    &&& s != "."@
    &&& s != ".."@
    &&& forall|i: int| 0 <= i < s.len() ==> s[i] != '/' && s[i] != '\\' && s[i] != ':'
}

/// The index of the last `.` among the first `n` characters of `s`, or -1 when there is none.
pub open spec fn last_dot(s: Seq<char>, n: int) -> int
    decreases n,
{
    if n <= 0 {
        -1
    } else if s[n - 1] == '.' {
        n - 1
    } else {
        last_dot(s, n - 1)
    }
}

/// The stem of a file name: the whole name when it has no `.` or only a leading one, else the
/// part before the final `.`.
pub open spec fn name_stem(name: Seq<char>) -> Seq<char> {
    let k = last_dot(name, name.len() as int);
    if k <= 0 {
        name
    } else {
        name.subrange(0, k)
    }
}

/// `Path::file_stem` of the path text, as a `str`: the file name without its extension. Which
/// characters separate components depends on the platform the program runs on; whatever comes
/// back is a piece of the given text. A text that is one plain file name is its own file name
/// everywhere, and its stem is what the documentation gives: no `.` or only a leading one, the
/// whole name; else the part before the final `.`. Of other paths, which piece comes back is
/// left unsaid, as it differs between platforms.
#[verifier::external_body]
fn file_stem_text(path: &str) -> (r: Option<String>)
    ensures
        r matches Some(t) ==> contains_seq(path@, t@),
        is_bare_file_name(path@) ==> r is Some && r->Some_0@ == name_stem(path@),
{
    std::path::Path::new(path).file_stem().and_then(|stem| stem.to_str()).map(|stem| stem.to_string())
}

/// A piece of a text whose lowercase does not hold `p` does not hold it either.
proof fn lemma_lowercase_contains_piece(s: Seq<char>, t: Seq<char>, p: Seq<char>)
    requires
        contains_seq(s, t),
        contains_seq(ascii_lowercase(t), p),
    ensures
        contains_seq(ascii_lowercase(s), p),
{
    let i = choose|i: int| crate::text::occurs_at(s, t, i);
    let j = choose|j: int| crate::text::occurs_at(ascii_lowercase(t), p, j);
    let ls = ascii_lowercase(s);
    let lt = ascii_lowercase(t);
    assert(s.subrange(i, i + t.len()) == t);
    assert(lt.subrange(j, j + p.len()) == p);
    assert(ls.subrange(i + j, i + j + p.len()) =~= p) by {
        assert forall|k: int| 0 <= k < p.len() implies ls.subrange(i + j, i + j + p.len())[k] == p[k] by {
            assert(ls[i + j + k] == crate::text::ascii_lower(s[i + j + k]));
            assert(s[i + j + k] == t[j + k]);
            assert(lt[j + k] == crate::text::ascii_lower(t[j + k]));
            assert(lt.subrange(j, j + p.len())[k] == lt[j + k]);
        }
    }
    assert(crate::text::occurs_at(ls, p, i + j));
}

/// The mode the installer starts in when run as `exe`: from the file stem, so an executable
/// whose whole path never mentions "uninstall" always starts in install mode.
pub fn default_mode_for_exe(exe: &str) -> (r: SetupMode)
    ensures
        r is Install || r is Uninstall,
        !contains_seq(ascii_lowercase(exe@), "uninstall"@) ==> r is Install,
        is_bare_file_name(exe@) ==> r == mode_for_stem(Some(name_stem(exe@))),
{
    let stem = file_stem_text(exe);
    match stem {
        Some(t) => {
            let r = default_mode_for_stem(Some(t.as_str()));
            proof {
                if r is Uninstall {
                    lemma_lowercase_contains_piece(exe@, t@, "uninstall"@);
                }
            }
            r
        },
        None => SetupMode::Install,
    }
}

/// Parses the command line of the installer run as `exe`.
pub fn parse_args_for_exe(exe: &str, args: &[&str]) -> (r: Result<SetupCommand, String>)
    ensures
        setup_result_is(r, setup_args_spec(setup_arg_texts(args@), 0, initial_setup_state(SetupMode::Install)))
            || setup_result_is(r, setup_args_spec(setup_arg_texts(args@), 0, initial_setup_state(SetupMode::Uninstall))),
        !contains_seq(ascii_lowercase(exe@), "uninstall"@) ==> setup_result_is(
            r,
            setup_args_spec(setup_arg_texts(args@), 0, initial_setup_state(SetupMode::Install)),
        ),
{
    let mode = default_mode_for_exe(exe);
    parse_setup_args(mode, args)
}

/// The flag for a value that must be given, or its error.
pub fn expect_value(next: Option<&str>, flag: &str) -> (r: Result<String, String>)
    ensures
        match next {
            Some(v) if !starts_with_dashes(v@) => r is Ok && r->Ok_0@ == v@,
            _ => r is Err && r->Err_0@ == flag@ + " requires a value"@,
        },
{
    match next {
        Some(v) => {
            if !starts_with_two_dashes(v) {
                return Ok(v.to_string());
            }
            Err(concat2(flag, " requires a value"))
        },
        None => Err(concat2(flag, " requires a value")),
    }
}

/// Whether the installer must ask for the target directory: only when none was given and
/// it may ask.
pub fn needs_interactive_install_dir(target_dir: Option<&std::path::PathBuf>, quiet: bool) -> (r: bool)
    ensures
        r == (!quiet && target_dir is None),
{
    !quiet && target_dir.is_none()
}

/// Whether the install wizard opens: the directory or the start-on-login choice is missing
/// and the installer may ask.
pub fn needs_install_wizard(target_dir_given: bool, quiet: bool, start_on_login: Option<bool>) -> (r: bool)
    ensures
        r == ((!quiet && !target_dir_given) || (!quiet && start_on_login is None)),
{
    (!quiet && !target_dir_given) || (!quiet && start_on_login.is_none())
}

/// The arguments the elevated copy of the installer is started with: the base flags, the
/// target directory (as displayed) and `--quiet`.
pub fn elevation_args(base_args: &[&str], target_dir: Option<&str>, quiet: bool) -> (r: Vec<String>)
    ensures
        r@.map_values(|s: String| s@) == base_args@.map_values(|s: &str| s@) + (match target_dir {
            Some(t) => seq!["--target"@, t@],
            None => Seq::<Seq<char>>::empty(),
        }) + (if quiet {
            seq!["--quiet"@]
        } else {
            Seq::<Seq<char>>::empty()
        }),
{
    let mut args: Vec<String> = Vec::new();
    let mut i: usize = 0;
    while i < base_args.len()
        invariant
            i <= base_args.len(),
            args@.len() == i,
            forall|k: int| 0 <= k < i ==> #[trigger] args@[k]@ == base_args@[k]@,
        decreases base_args.len() - i,
    {
        args.push(base_args[i].to_string());
        i += 1;
    }
    assert(args@.map_values(|s: String| s@) =~= base_args@.map_values(|s: &str| s@));
    let ghost base = args@.map_values(|s: String| s@);
    match target_dir {
        Some(t) => {
            args.push("--target".to_string());
            args.push(t.to_string());
            assert(args@.map_values(|s: String| s@) =~= base + seq!["--target"@, t@]);
        },
        None => {},
    }
    let ghost mid = args@.map_values(|s: String| s@);
    if quiet {
        args.push("--quiet".to_string());
        assert(args@.map_values(|s: String| s@) =~= mid + seq!["--quiet"@]);
    } else {
        assert(mid =~= mid + Seq::<Seq<char>>::empty());
    }
    proof {
        if target_dir is None {
            assert(base =~= base + Seq::<Seq<char>>::empty());
        }
    }
    args
}

/// Adds the flag that carries the VB-CABLE removal choice, if one was made.
pub fn append_uninstall_choice_args(args: &mut Vec<String>, remove_vb_cable: Option<bool>)
    ensures
        final(args)@.map_values(|s: String| s@) == old(args)@.map_values(|s: String| s@) + match remove_vb_cable {
            Some(true) => seq!["--remove-vb-cable"@],
            Some(false) => seq!["--keep-vb-cable"@],
            None => Seq::<Seq<char>>::empty(),
        },
{
    let ghost before = args@.map_values(|s: String| s@);
    match remove_vb_cable {
        Some(true) => args.push("--remove-vb-cable".to_string()),
        Some(false) => args.push("--keep-vb-cable".to_string()),
        None => {},
    }
    assert(args@.map_values(|s: String| s@) =~= before + match remove_vb_cable {
        Some(true) => seq!["--remove-vb-cable"@],
        Some(false) => seq!["--keep-vb-cable"@],
        None => Seq::<Seq<char>>::empty(),
    });
}

/// Adds the flag that carries the start-on-login choice, if one was made.
pub fn append_start_on_login_choice_args(args: &mut Vec<String>, start_on_login: Option<bool>)
    ensures
        final(args)@.map_values(|s: String| s@) == old(args)@.map_values(|s: String| s@) + match start_on_login {
            Some(true) => seq!["--start-on-login"@],
            Some(false) => seq!["--no-start-on-login"@],
            None => Seq::<Seq<char>>::empty(),
        },
{
    let ghost before = args@.map_values(|s: String| s@);
    match start_on_login {
        Some(true) => args.push("--start-on-login".to_string()),
        Some(false) => args.push("--no-start-on-login".to_string()),
        None => {},
    }
    assert(args@.map_values(|s: String| s@) =~= before + match start_on_login {
        Some(true) => seq!["--start-on-login"@],
        Some(false) => seq!["--no-start-on-login"@],
        None => Seq::<Seq<char>>::empty(),
    });
}

/// A choice given on the command line stands; a quiet run takes `false`; otherwise the user
/// is asked (`None`).
pub fn choice_without_prompt(given: Option<bool>, quiet: bool) -> (r: Option<bool>)
    ensures
        r == match given {
            Some(v) => Some(v),
            None => if quiet {
                Some(false)
            } else {
                None
            },
        },
{
    match given {
        Some(v) => Some(v),
        None => if quiet {
            Some(false)
        } else {
            None
        },
    }
}

/// The `UninstallString` and `QuietUninstallString` registry values for the uninstaller at
/// `uninstall_exe` (its path as displayed).
pub fn uninstall_registry_strings(uninstall_exe: &str) -> (r: (String, String))
    ensures
        r.0@ == "\""@ + uninstall_exe@ + "\""@,
        r.1@ == "\""@ + uninstall_exe@ + "\" --quiet"@,
{
    let mut plain = String::from_str("\"");
    plain.append(uninstall_exe);
    plain.append("\"");
    let mut quiet = String::from_str("\"");
    quiet.append(uninstall_exe);
    quiet.append("\" --quiet");
    (plain, quiet)
}

/// The path components, below the installation directory, of the uninstaller.
pub fn uninstaller_relative_path() -> (r: (&'static str, &'static str))
    ensures
        r.0@ == "installer"@,
        r.1@ == "ClearLineUninstall.exe"@,
{
    ("installer", "ClearLineUninstall.exe")
}

/// An argument needs quotes when it holds a space, a tab or a quote.
pub open spec fn needs_quotes(s: Seq<char>) -> bool {
    exists|i: int| 0 <= i < s.len() && (s[i] == ' ' || s[i] == '\t' || s[i] == '"')
}

/// The text with each `"` written as `\"`.
pub open spec fn escape_quotes(s: Seq<char>) -> Seq<char>
    decreases s.len(),
{
    if s.len() == 0 {
        Seq::empty()
    } else {
        escape_quotes(s.drop_last()) + if s.last() == '"' {
            seq!['\\', '"']
        } else {
            seq![s.last()]
        }
    }
}

/// One argument as it appears on a Windows command line.
pub open spec fn quoted_arg(s: Seq<char>) -> Seq<char> {
    if needs_quotes(s) {
        seq!['"'] + escape_quotes(s) + seq!['"']
    } else {
        s
    }
}

/// Quotes one argument for a Windows command line.
pub fn quote_arg(arg: &str) -> (r: String)
    ensures
        r@ == quoted_arg(arg@),
{
    let v = chars_of(arg);
    let mut needs = false;
    let mut escaped: Vec<char> = Vec::new();
    let mut i: usize = 0;
    while i < v.len()
        invariant
            i <= v.len(),
            v@ == arg@,
            escaped@ == escape_quotes(v@.take(i as int)),
            needs == exists|k: int| 0 <= k < i && (v@[k] == ' ' || v@[k] == '\t' || v@[k] == '"'),
        decreases v.len() - i,
    {
        let c = v[i];
        assert(v@.take(i + 1).drop_last() =~= v@.take(i as int));
        if c == '"' {
            escaped.push('\\');
            escaped.push('"');
        } else {
            escaped.push(c);
        }
        if c == ' ' || c == '\t' || c == '"' {
            needs = true;
        }
        assert(escaped@ =~= escape_quotes(v@.take(i + 1)));
        i += 1;
    }
    assert(v@.take(v.len() as int) =~= v@);
    if !needs {
        return arg.to_string();
    }
    let mut out: Vec<char> = Vec::new();
    out.push('"');
    let mut j: usize = 0;
    while j < escaped.len()
        invariant
            j <= escaped.len(),
            out@ == seq!['"'] + escaped@.take(j as int),
        decreases escaped.len() - j,
    {
        out.push(escaped[j]);
        assert(escaped@.take(j + 1) =~= escaped@.take(j as int).push(escaped@[j as int]));
        j += 1;
    }
    out.push('"');
    assert(escaped@.take(escaped.len() as int) =~= escaped@);
    crate::text::string_from_chars(&out)
}

/// The arguments quoted and joined by single spaces.
pub open spec fn command_line_text(args: Seq<Seq<char>>) -> Seq<char>
    decreases args.len(),
{
    if args.len() == 0 {
        Seq::empty()
    } else if args.len() == 1 {
        quoted_arg(args[0])
    } else {
        command_line_text(args.drop_last()) + seq![' '] + quoted_arg(args.last())
    }
}

/// The command line that starts a program with `args`.
pub fn join_command_line(args: &[String]) -> (r: String)
    ensures
        r@ == command_line_text(args@.map_values(|s: String| s@)),
{
    let ghost texts = args@.map_values(|s: String| s@);
    let mut out = String::new();
    let mut i: usize = 0;
    while i < args.len()
        invariant
            i <= args.len(),
            texts == args@.map_values(|s: String| s@),
            out@ == command_line_text(texts.take(i as int)),
        decreases args.len() - i,
    {
        let q = quote_arg(args[i].as_str());
        assert(texts[i as int] == args@[i as int]@);
        assert(texts.take(i + 1).drop_last() =~= texts.take(i as int));
        let ghost before = out@;
        if i > 0 {
            out.append(" ");
        }
        out.append(q.as_str());
        proof {
            reveal_strlit(" ");
            assert(texts.take(i + 1).last() == texts[i as int]);
            if i == 0 {
                assert(texts.take(0) =~= Seq::<Seq<char>>::empty());
                assert(texts.take(1)[0] == texts[0]);
            } else {
                assert(out@ =~= before + seq![' '] + q@);
            }
        }
        assert(out@ =~= command_line_text(texts.take(i + 1)));
        i += 1;
    }
    assert(texts.take(args.len() as int) =~= texts);
    out
}

/// The `EstimatedSize` registry value: the payload in KiB, at least one.
pub fn estimated_size_kb(total_bytes: u64) -> (r: u64)
    ensures
        r == if total_bytes / 1024 >= 1 { total_bytes / 1024 } else { 1 },
{
    let kb = total_bytes / 1024;
    if kb >= 1 { kb } else { 1 }
}

/// The target directory that a finished install or uninstall command carries.
pub open spec fn parsed_target_dir(r: Result<SetupCommandSpec, Seq<char>>) -> Option<Option<Seq<char>>> {
    match r {
        Ok(SetupCommandSpec::Install { target_dir, .. }) => Some(target_dir),
        Ok(SetupCommandSpec::Uninstall { target_dir, .. }) => Some(target_dir),
        _ => None,
    }
}

/// With no `--target` at or after position `i`, an install or uninstall command keeps the
/// target directory collected so far.
proof fn lemma_no_target_keeps_target_dir(a: Seq<Seq<char>>, i: int, st: SetupArgsState)
    requires
        0 <= i,
        forall|j: int| i <= j < a.len() ==> a[j] != "--target"@,
    ensures
        parsed_target_dir(setup_args_spec(a, i, st)) matches Some(t) ==> t == st.target_dir,
    decreases a.len() - i,
{
    if i < a.len() {
        let arg = a[i];
        if arg == "--install"@ {
            lemma_no_target_keeps_target_dir(a, i + 1, SetupArgsState { mode: SetupMode::Install, ..st });
        } else if arg == "--uninstall"@ {
            lemma_no_target_keeps_target_dir(a, i + 1, SetupArgsState { mode: SetupMode::Uninstall, ..st });
        } else if arg == "--cleanup-install-dir"@ {
            if has_flag_value(a, i) {
                lemma_no_target_keeps_target_dir(
                    a,
                    i + 2,
                    SetupArgsState { mode: SetupMode::Cleanup, cleanup_dir: Some(a[i + 1]), ..st },
                );
            }
        } else if arg == "--target"@ {
        } else if arg == "--quiet"@ {
            lemma_no_target_keeps_target_dir(a, i + 1, SetupArgsState { quiet: true, ..st });
        } else if arg == "--start-on-login"@ {
            lemma_no_target_keeps_target_dir(a, i + 1, SetupArgsState { start_on_login: Some(true), ..st });
        } else if arg == "--no-start-on-login"@ {
            lemma_no_target_keeps_target_dir(a, i + 1, SetupArgsState { start_on_login: Some(false), ..st });
        } else if arg == "--remove-vb-cable"@ {
            lemma_no_target_keeps_target_dir(a, i + 1, SetupArgsState { remove_vb_cable: Some(true), ..st });
        } else if arg == "--keep-vb-cable"@ {
            lemma_no_target_keeps_target_dir(a, i + 1, SetupArgsState { remove_vb_cable: Some(false), ..st });
        }
    }
}

/// Reading from `i` up to the last `--target` at `k` (whose value follows it), an install or
/// uninstall command carries that value as its target directory.
proof fn lemma_last_target_wins(a: Seq<Seq<char>>, i: int, st: SetupArgsState, k: int)
    requires
        0 <= i <= k,
        k + 1 < a.len(),
        a[k] == "--target"@,
        !starts_with_dashes(a[k + 1]),
        forall|j: int| k < j < a.len() ==> a[j] != "--target"@,
    ensures
        parsed_target_dir(setup_args_spec(a, i, st)) matches Some(t) ==> t == Some(a[k + 1]),
    decreases k - i,
{
    reveal_strlit("--target");
    reveal_strlit("--install");
    reveal_strlit("--uninstall");
    reveal_strlit("--cleanup-install-dir");
    assert(starts_with_dashes(a[k]));
    let arg = a[i];
    if i == k {
        assert(arg != "--install"@);
        assert(arg != "--uninstall"@);
        assert(arg != "--cleanup-install-dir"@);
        assert(has_flag_value(a, i));
        lemma_no_target_keeps_target_dir(a, i + 2, SetupArgsState { target_dir: Some(a[i + 1]), ..st });
    } else {
        if arg == "--install"@ {
            lemma_last_target_wins(a, i + 1, SetupArgsState { mode: SetupMode::Install, ..st }, k);
        } else if arg == "--uninstall"@ {
            lemma_last_target_wins(a, i + 1, SetupArgsState { mode: SetupMode::Uninstall, ..st }, k);
        } else if arg == "--cleanup-install-dir"@ {
            if has_flag_value(a, i) {
                assert(i + 1 != k);
                lemma_last_target_wins(
                    a,
                    i + 2,
                    SetupArgsState { mode: SetupMode::Cleanup, cleanup_dir: Some(a[i + 1]), ..st },
                    k,
                );
            }
        } else if arg == "--target"@ {
            if has_flag_value(a, i) {
                assert(i + 1 != k);
                lemma_last_target_wins(a, i + 2, SetupArgsState { target_dir: Some(a[i + 1]), ..st }, k);
            }
        } else if arg == "--quiet"@ {
            lemma_last_target_wins(a, i + 1, SetupArgsState { quiet: true, ..st }, k);
        } else if arg == "--start-on-login"@ {
            lemma_last_target_wins(a, i + 1, SetupArgsState { start_on_login: Some(true), ..st }, k);
        } else if arg == "--no-start-on-login"@ {
            lemma_last_target_wins(a, i + 1, SetupArgsState { start_on_login: Some(false), ..st }, k);
        } else if arg == "--remove-vb-cable"@ {
            lemma_last_target_wins(a, i + 1, SetupArgsState { remove_vb_cable: Some(true), ..st }, k);
        } else if arg == "--keep-vb-cable"@ {
            lemma_last_target_wins(a, i + 1, SetupArgsState { remove_vb_cable: Some(false), ..st }, k);
        }
    }
}

/// `--target v` is obeyed: when the installer's arguments hold `--target v` (with `v` not a
/// flag) and no later `--target`, a parse in either starting mode that yields an install or an
/// uninstall command yields it with `v` as its target directory.
pub proof fn lemma_target_flag_sets_target_dir(
    mode: SetupMode,
    args: Seq<&str>,
    r: Result<SetupCommand, String>,
    k: int,
)
    requires
        setup_result_is(r, setup_args_spec(setup_arg_texts(args), 0, initial_setup_state(mode))),
        0 <= k,
        k + 1 < args.len(),
        args[k]@ == "--target"@,
        !starts_with_dashes(args[k + 1]@),
        forall|j: int| k < j < args.len() ==> args[j]@ != "--target"@,
    ensures
        r matches Ok(SetupCommand::Install { target_dir, .. }) ==> target_dir == Some(path_of(args[k + 1]@)),
        r matches Ok(SetupCommand::Uninstall { target_dir, .. }) ==> target_dir == Some(path_of(args[k + 1]@)),
{
    let a = setup_arg_texts(args);
    assert forall|j: int| k < j < a.len() implies a[j] != "--target"@ by {
        assert(a[j] == args[j]@);
    }
    assert(a[k] == args[k]@);
    assert(a[k + 1] == args[k + 1]@);
    lemma_last_target_wins(a, 0, initial_setup_state(mode), k);
}

} // verus!

