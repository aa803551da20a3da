//! The command line of the lab recorder (`list`, `record --device .. --seconds .. --out ..`,
//! `help`) and how it picks the input device that a `record` names.
use vstd::prelude::*;
use vstd::string::*;
use crate::number::{parse_u64, parse_u64_spec, parse_usize, parse_usize_spec};
use crate::paths::{duration_from_secs, duration_of_secs, path_from_string, path_of};
use crate::text::{chars_of, concat2, contains_seq, decimal, is_blank, push_decimal, str_contains, str_eq, trim};

verus! {

broadcast use vstd::string::group_string_axioms;

/// What `record` was asked to do.
#[derive(Debug, Clone, PartialEq, Eq)]
pub struct RecordOptions {
    pub device_query: String,
    pub duration: std::time::Duration,
    pub out: std::path::PathBuf,
}

/// A parsed command line of the lab recorder.
#[derive(Debug, Clone, PartialEq, Eq)]
pub enum Command {
    List,
    Record(RecordOptions),
    Help,
}

/// A command line's meaning, with the texts it carries.
pub enum LabCommandSpec {
    List,
    Record { device_query: Seq<char>, seconds: u64, out: Seq<char> },
    Help,
}

/// `c` is the command that `s` describes.
pub open spec fn command_is(c: Command, s: LabCommandSpec) -> bool {
    match s {
        LabCommandSpec::List => c is List,
        LabCommandSpec::Help => c is Help,
        LabCommandSpec::Record { device_query, seconds, out } => c matches Command::Record(o) && o.device_query@
            == device_query && o.duration == duration_of_secs(seconds) && o.out == path_of(out),
    }
}

/// The texts of the arguments.
pub open spec fn arg_texts(args: Seq<&str>) -> Seq<Seq<char>> {
    args.map_values(|a: &str| a@)
}

/// What a finished `record` line means, given the values it collected.
pub open spec fn finish_record_spec(
    device: Option<Seq<char>>,
    seconds: Option<u64>,
    out: Option<Seq<char>>,
) -> Result<LabCommandSpec, Seq<char>> {
    match device {
        None => Err("missing --device <name-or-index>"@),
        Some(d) => match seconds {
            None => Err("missing --seconds <n>"@),
            Some(n) => match out {
                None => Err("missing --out <path.wav>"@),
                Some(o) => Ok(LabCommandSpec::Record { device_query: d, seconds: n, out: o }),
            },
        },
    }
}

/// The flag at `a[i]` takes the next argument as its value, which must not be blank.
pub open spec fn has_value_after(a: Seq<Seq<char>>, i: int) -> bool {
    i + 1 < a.len() && trim(a[i + 1]).len() > 0
}

/// The options of `record`, read from position `i` on with the values collected so far.
pub open spec fn record_args_spec(
    a: Seq<Seq<char>>,
    i: int,
    device: Option<Seq<char>>,
    seconds: Option<u64>,
    out: Option<Seq<char>>,
) -> Result<LabCommandSpec, Seq<char>>
    decreases a.len() - i,
{
    if i < 0 || i >= a.len() {
        finish_record_spec(device, seconds, out)
    } else {
        let flag = a[i];
        if flag == "--device"@ || flag == "-d"@ {
            if !has_value_after(a, i) {
                Err(flag + " requires a value"@)
            } else {
                record_args_spec(a, i + 2, Some(a[i + 1]), seconds, out)
            }
        } else if flag == "--seconds"@ || flag == "-s"@ {
            if !has_value_after(a, i) {
                Err(flag + " requires a value"@)
            } else {
                match parse_u64_spec(a[i + 1]) {
                    Err(_) => Err("--seconds must be a positive integer: "@ + a[i + 1]),
                    Ok(n) => if n == 0 {
                        Err("--seconds must be greater than zero"@)
                    } else {
                        record_args_spec(a, i + 2, device, Some(n), out)
                    },
                }
            }
        } else if flag == "--out"@ || flag == "-o"@ {
            if !has_value_after(a, i) {
                Err(flag + " requires a value"@)
            } else {
                record_args_spec(a, i + 2, device, seconds, Some(a[i + 1]))
            }
        } else if flag == "--help"@ || flag == "-h"@ {
            Ok(LabCommandSpec::Help)
        } else {
            Err("unexpected record argument: "@ + flag)
        }
    }
}

/// The meaning of a whole command line; `a[0]` is the program.
pub open spec fn lab_args_spec(a: Seq<Seq<char>>) -> Result<LabCommandSpec, Seq<char>> {
    if a.len() < 2 {
        Ok(LabCommandSpec::Help)
    } else if a[1] == "list"@ {
        if a.len() > 2 {
            Err("unexpected argument: "@ + a[2])
        } else {
            Ok(LabCommandSpec::List)
        }
    } else if a[1] == "record"@ {
        record_args_spec(a, 2, None, None, None)
    } else if a[1] == "help"@ || a[1] == "--help"@ || a[1] == "-h"@ {
        Ok(LabCommandSpec::Help)
    } else {
        Err("unknown command: "@ + a[1])
    }
}

/// The text of an optional string.
pub open spec fn opt_text(s: Option<String>) -> Option<Seq<char>> {
    match s {
        Some(t) => Some(t@),
        None => None,
    }
}

fn requires_value_error(flag: &str) -> (r: String)
    ensures
        r@ == flag@ + " requires a value"@,
{
    concat2(flag, " requires a value")
}

fn parse_record_args(args: &[&str]) -> (r: Result<Command, String>)
    requires
        args.len() >= 2,
    ensures
        match record_args_spec(arg_texts(args@), 2, None, None, None) {
            Ok(s) => r is Ok && command_is(r->Ok_0, s),
            Err(e) => r is Err && r->Err_0@ == e,
        },
{
    let ghost a = arg_texts(args@);
    let mut device: Option<String> = None;
    let mut seconds: Option<u64> = None;
    let mut out: Option<String> = None;
    let mut i: usize = 2;
    while i < args.len()
        invariant
            2 <= i <= args.len(),
            a == arg_texts(args@),
            a.len() == args.len(),
            record_args_spec(a, i as int, opt_text(device), seconds, opt_text(out))
                == record_args_spec(a, 2, None, None, None),
        decreases args.len() - i,
    {
        let flag: &str = args[i];
        assert(a[i as int] == flag@);
        if str_eq(flag, "--device") || str_eq(flag, "-d") {
            if i + 1 >= args.len() || is_blank(args[i + 1]) {
                return Err(requires_value_error(flag));
            }
            assert(a[i + 1] == args[i + 1]@);
            device = Some(args[i + 1].to_string());
            i = i + 2;
        } else if str_eq(flag, "--seconds") || str_eq(flag, "-s") {
            if i + 1 >= args.len() || is_blank(args[i + 1]) {
                return Err(requires_value_error(flag));
            }
            let value: &str = args[i + 1];
            assert(a[i + 1] == value@);
            match parse_u64(&chars_of(value)) {
                Err(_) => {
                    return Err(concat2("--seconds must be a positive integer: ", value));
                },
                Ok(n) => {
                    if n == 0 {
                        return Err("--seconds must be greater than zero".to_string());
                    }
                    seconds = Some(n);
                },
            }
            i = i + 2;
        } else if str_eq(flag, "--out") || str_eq(flag, "-o") {
            if i + 1 >= args.len() || is_blank(args[i + 1]) {
                return Err(requires_value_error(flag));
            }
            assert(a[i + 1] == args[i + 1]@);
            out = Some(args[i + 1].to_string());
            i = i + 2;
        } else if str_eq(flag, "--help") || str_eq(flag, "-h") {
            return Ok(Command::Help);
        } else {
            return Err(concat2("unexpected record argument: ", flag));
        }
    }
    let device_query = match device {
        None => {
            return Err("missing --device <name-or-index>".to_string());
        },
        Some(d) => d,
    };
    let seconds = match seconds {
        None => {
            return Err("missing --seconds <n>".to_string());
        },
        Some(n) => n,
    };
    let out = match out {
        None => {
            return Err("missing --out <path.wav>".to_string());
        },
        Some(o) => o,
    };
    Ok(
        Command::Record(
            RecordOptions {
                device_query,
                duration: duration_from_secs(seconds),
                out: path_from_string(out),
            },
        ),
    )
}

/// Parses the lab recorder's command line, program name first.
pub fn parse_args(args: &[&str]) -> (r: Result<Command, String>)
    ensures
        match lab_args_spec(arg_texts(args@)) {
            Ok(s) => r is Ok && command_is(r->Ok_0, s),
            Err(e) => r is Err && r->Err_0@ == e,
        },
{
    let ghost a = arg_texts(args@);
    if args.len() < 2 {
        return Ok(Command::Help);
    }
    let command: &str = args[1];
    assert(a[1] == command@);
    if str_eq(command, "list") {
        if args.len() > 2 {
            assert(a[2] == args[2]@);
            return Err(concat2("unexpected argument: ", args[2]));
        }
        Ok(Command::List)
    } else if str_eq(command, "record") {
        parse_record_args(args)
    } else if str_eq(command, "help") || str_eq(command, "--help") || str_eq(command, "-h") {
        Ok(Command::Help)
    } else {
        Err(concat2("unknown command: ", command))
    }
}

// ---------------------------------------------------------------------------------------------
// Picking the device to record
// ---------------------------------------------------------------------------------------------

/// What `str::to_lowercase` returns for a text: its Unicode lowercase mapping.
pub uninterp spec fn unicode_lowercase(s: Seq<char>) -> Seq<char>;

/// `str::to_lowercase`, whose result is the text's Unicode lowercase mapping.
#[verifier::external_body]
fn to_lowercase(s: &str) -> (r: String)
    ensures
        r@ == unicode_lowercase(s@),
{
    s.to_lowercase()
}

/// The texts of the device names.
pub open spec fn name_texts(names: Seq<String>) -> Seq<Seq<char>> {
    names.map_values(|n: String| n@)
}

/// The indices, among the first `n` names, of those whose lowercase holds `query`.
pub open spec fn matching_indices(names: Seq<Seq<char>>, query: Seq<char>, n: int) -> Seq<int>
    decreases n,
{
    if n <= 0 {
        Seq::empty()
    } else {
        let m = matching_indices(names, query, n - 1);
        if contains_seq(unicode_lowercase(names[n - 1]), query) {
            m.push(n - 1)
        } else {
            m
        }
    }
}

/// One line per matching name, `  - ` before each, joined by newlines.
pub open spec fn match_list_text(names: Seq<Seq<char>>, idxs: Seq<int>) -> Seq<char>
    decreases idxs.len(),
{
    if idxs.len() == 0 {
        Seq::empty()
    } else if idxs.len() == 1 {
        "  - "@ + names[idxs[0]]
    } else {
        match_list_text(names, idxs.drop_last()) + "\n  - "@ + names[idxs.last()]
    }
}

/// Which device a query picks: a number is an index into the list; any other text must
/// occur, ignoring case, in exactly one name.
pub open spec fn select_device_spec(names: Seq<Seq<char>>, query: Seq<char>) -> Result<usize, Seq<char>> {
    match parse_usize_spec(query) {
        Ok(index) => if index < names.len() {
            Ok(index)
        } else {
            Err("input device index "@ + decimal(index as nat) + " was not found"@)
        },
        Err(_) => {
            let q = unicode_lowercase(query);
            let m = matching_indices(names, q, names.len() as int);
            if m.len() == 1 {
                Ok(m[0] as usize)
            } else if m.len() == 0 {
                Err("no input device matched '"@ + q + "'"@)
            } else {
                Err("multiple input devices matched '"@ + q + "':\n"@ + match_list_text(names, m)
                    + "\nUse an index from `clearline-lab list`."@)
            }
        },
    }
}

proof fn lemma_matching_indices_bounded(names: Seq<Seq<char>>, query: Seq<char>, n: int)
    requires
        0 <= n <= names.len(),
    ensures
        forall|k: int| 0 <= k < matching_indices(names, query, n).len()
            ==> 0 <= #[trigger] matching_indices(names, query, n)[k] < n,
    decreases n,
{
    if n > 0 {
        lemma_matching_indices_bounded(names, query, n - 1);
        let m = matching_indices(names, query, n - 1);
        assert forall|k: int| 0 <= k < matching_indices(names, query, n).len() implies 0
            <= #[trigger] matching_indices(names, query, n)[k] < n by {
            if k < m.len() {
                assert(matching_indices(names, query, n)[k] == m[k]);
            }
        }
    }
}

/// Picks the device that `query` names among `names`, by index or by a unique
/// case-insensitive match.
pub fn select_input_device(names: &[String], query: &str) -> (r: Result<usize, String>)
    ensures
        match select_device_spec(name_texts(names@), query@) {
            Ok(i) => r == Ok::<usize, String>(i),
            Err(e) => r is Err && r->Err_0@ == e,
        },
{
    let ghost nt = name_texts(names@);
    match parse_usize(&chars_of(query)) {
        Ok(index) => {
            if index < names.len() {
                return Ok(index);
            }
            let mut m = String::from_str("input device index ");
            push_decimal(&mut m, index as u64);
            m.append(" was not found");
            return Err(m);
        },
        Err(_) => {},
    }
    let q = to_lowercase(query);
    let mut matches: Vec<usize> = Vec::new();
    let mut i: usize = 0;
    while i < names.len()
        invariant
            i <= names.len(),
            nt == name_texts(names@),
            nt.len() == names.len(),
            matches@.map_values(|k: usize| k as int) == matching_indices(nt, q@, i as int),
        decreases names.len() - i,
    {
        let lower = to_lowercase(names[i].as_str());
        assert(nt[i as int] == names@[i as int]@);
        if str_contains(lower.as_str(), q.as_str()) {
            matches.push(i);
            assert(matches@.map_values(|k: usize| k as int) =~= matching_indices(nt, q@, i as int).push(
                i as int,
            ));
        }
        i += 1;
    }
    let ghost m = matching_indices(nt, q@, nt.len() as int);
    proof {
        lemma_matching_indices_bounded(nt, q@, nt.len() as int);
    }
    assert(matches@.len() == m.len());
    if matches.len() == 1 {
        assert(m[0] == matches@[0] as int);
        return Ok(matches[0]);
    }
    let mut msg = String::from_str("no input device matched '");
    if matches.len() == 0 {
        msg.append(q.as_str());
        msg.append("'");
        return Err(msg);
    }
    let mut msg = String::from_str("multiple input devices matched '");
    msg.append(q.as_str());
    msg.append("':\n");
    let ghost prefix = msg@;
    let mut j: usize = 0;
    while j < matches.len()
        invariant
            j <= matches.len(),
            matches@.map_values(|k: usize| k as int) == m,
            nt == name_texts(names@),
            forall|k: int| 0 <= k < m.len() ==> 0 <= #[trigger] m[k] < nt.len(),
            msg@ == prefix + match_list_text(nt, m.take(j as int)),
        decreases matches.len() - j,
    {
        let k = matches[j];
        assert(m[j as int] == k as int);
        let ghost before = msg@;
        assert(m.take(j + 1).drop_last() =~= m.take(j as int));
        assert(m.take(j + 1).last() == m[j as int]);
        assert(nt[k as int] == names@[k as int]@);
        if j > 0 {
            msg.append("\n  - ");
            msg.append(names[k].as_str());
            assert(msg@ =~= prefix + (match_list_text(nt, m.take(j as int)) + "\n  - "@ + nt[k as int]));
        } else {
            msg.append("  - ");
            msg.append(names[k].as_str());
            assert(m.take(1)[0] == m[0]);
            assert(m.take(j as int) =~= Seq::<int>::empty());
            assert(msg@ =~= prefix + ("  - "@ + nt[k as int]));
        }
        j += 1;
    }
    assert(m.take(matches.len() as int) =~= m);
    msg.append("\nUse an index from `clearline-lab list`.");
    Err(msg)
}

/// One line of the device listing: index, name, and a mark on the default device.
pub open spec fn device_list_line(index: nat, name: Seq<char>, is_default: bool) -> Seq<char> {
    "  ["@ + decimal(index) + "] "@ + name + if is_default {
        " (default)"@
    } else {
        Seq::<char>::empty()
    }
}

/// The lines that `list` prints for the input devices `names`, `default_index` marking the
/// system default.
pub fn device_list_lines(names: &[String], default_index: Option<usize>) -> (r: Vec<String>)
    ensures
        names.len() == 0 ==> r@.len() == 1 && r@[0]@ == "No input devices found."@,
        names.len() > 0 ==> {
            &&& r@.len() == names.len() + 1
            &&& r@[0]@ == "Input capture devices:"@
            &&& forall|i: int|
                0 <= i < names.len() ==> #[trigger] r@[i + 1]@ == device_list_line(
                    i as nat,
                    names@[i]@,
                    default_index == Some(i as usize),
                )
        },
{
    let mut lines: Vec<String> = Vec::new();
    if names.len() == 0 {
        lines.push("No input devices found.".to_string());
        return lines;
    }
    lines.push("Input capture devices:".to_string());
    let mut i: usize = 0;
    while i < names.len()
        invariant
            0 < names.len(),
            i <= names.len(),
            lines@.len() == i + 1,
            lines@[0]@ == "Input capture devices:"@,
            forall|k: int|
                0 <= k < i ==> #[trigger] lines@[k + 1]@ == device_list_line(
                    k as nat,
                    names@[k]@,
                    default_index == Some(k as usize),
                ),
        decreases names.len() - i,
    {
        let mut line = String::from_str("  [");
        push_decimal(&mut line, i as u64);
        line.append("] ");
        line.append(names[i].as_str());
        let is_default = match default_index {
            Some(d) => d == i,
            None => false,
        };
        if is_default {
            line.append(" (default)");
        }
        assert(line@ =~= device_list_line(i as nat, names@[i as int]@, default_index == Some(i)));
        lines.push(line);
        i += 1;
    }
    lines
}

} // verus!
