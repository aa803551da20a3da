//! Release versions of the form `v1.2.3-suffix`, whether an offered release is newer, and the
//! checks on a downloaded installer.
use sha2::Digest;
use vstd::prelude::*;
use vstd::string::*;
use crate::device::{first_index, lemma_first_index};
use crate::number::{parse_u32, parse_u32_spec, IntParseError};
use crate::text::{ascii_lower, chars_of, lower_char, push_chars, trim, trim_chars};

verus! {

broadcast use vstd::string::group_string_axioms;

// ---------------------------------------------------------------------------------------------
// Versions
// ---------------------------------------------------------------------------------------------

/// Why a version did not parse.
#[derive(Debug, Clone, PartialEq, Eq)]
pub enum VersionError {
    Number(IntParseError),
    TooManyParts(String),
}

/// The message of a version error.
pub open spec fn version_error_text(e: VersionError) -> Seq<char> {
    match e {
        VersionError::Number(e) => match e {
            IntParseError::Empty => "cannot parse integer from empty string"@,
            IntParseError::InvalidDigit => "invalid digit found in string"@,
            IntParseError::PosOverflow => "number too large to fit in target type"@,
        },
        VersionError::TooManyParts(v) => "版本号无效："@ + v@,
    }
}

impl VersionError {
    pub fn message(&self) -> (r: String)
        ensures
            r@ == version_error_text(*self),
    {
        match self {
            VersionError::Number(e) => String::from_str(e.message()),
            VersionError::TooManyParts(v) => {
                let mut r = String::from_str("版本号无效：");
                r.append(v.as_str());
                r
            },
        }
    }
}

/// `s` without any leading `v`.
pub open spec fn strip_leading_v(s: Seq<char>) -> Seq<char>
    decreases s.len(),
{
    if s.len() > 0 && s[0] == 'v' {
        strip_leading_v(s.drop_first())
    } else {
        s
    }
}

pub open spec fn is_char(c: char) -> spec_fn(char) -> bool {
    |x: char| x == c
}

/// The part of `s` before the first `c` (all of `s` without one).
pub open spec fn before_char(s: Seq<char>, c: char) -> Seq<char> {
    match first_index(s, is_char(c)) {
        Some(i) => s.take(i),
        None => s,
    }
}

/// The part of `s` after the first `c`, if there is one.
pub open spec fn after_char(s: Seq<char>, c: char) -> Option<Seq<char>> {
    match first_index(s, is_char(c)) {
        Some(i) => Some(s.skip(i + 1)),
        None => None,
    }
}

/// The three version fields and whether a fourth follows.
pub open spec fn version_fields(core: Seq<char>) -> (Seq<char>, Seq<char>, Seq<char>, bool) {
    let f0 = before_char(core, '.');
    let r1 = after_char(core, '.');
    let f1 = match r1 {
        Some(t) => before_char(t, '.'),
        None => "0"@,
    };
    let r2 = match r1 {
        Some(t) => after_char(t, '.'),
        None => None,
    };
    let f2 = match r2 {
        Some(t) => before_char(t, '.'),
        None => "0"@,
    };
    let more = match r2 {
        Some(t) => after_char(t, '.') is Some,
        None => false,
    };
    (f0, f1, f2, more)
}

/// `parse_version`: trim, drop leading `v`s and anything from the first `-`, then read up to
/// three `.`-separated numbers (missing ones are zero); a fourth field is refused, naming the
/// trimmed text.
pub open spec fn parse_version_spec(value: Seq<char>) -> Result<(u32, u32, u32), VersionError> {
    let v = strip_leading_v(trim(value));
    let (f0, f1, f2, more) = version_fields(before_char(v, '-'));
    match parse_u32_spec(f0) {
        Err(e) => Err(VersionError::Number(e)),
        Ok(major) => match parse_u32_spec(f1) {
            Err(e) => Err(VersionError::Number(e)),
            Ok(minor) => match parse_u32_spec(f2) {
                Err(e) => Err(VersionError::Number(e)),
                Ok(patch) => if more {
                    Err(VersionError::TooManyParts(arbitrary()))
                } else {
                    Ok((major, minor, patch))
                },
            },
        },
    }
}

/// The text that a too-long version is reported with.
pub open spec fn version_core_text(value: Seq<char>) -> Seq<char> {
    strip_leading_v(trim(value))
}

/// The message with which reading `value` as a version fails, if it does.
pub open spec fn version_failure_text(value: Seq<char>) -> Seq<char> {
    match parse_version_spec(value) {
        Err(VersionError::TooManyParts(_)) => "版本号无效："@ + version_core_text(value),
        Err(e) => version_error_text(e),
        Ok(_) => Seq::empty(),
    }
}

fn find_char(v: &Vec<char>, c: char) -> (r: Option<usize>)
    ensures
        match r {
            Some(i) => i < v@.len() && first_index(v@, is_char(c)) == Some(i as int),
            None => first_index(v@, is_char(c)) is None,
        },
{
    let ghost p = is_char(c);
    let mut i: usize = 0;
    while i < v.len()
        invariant
            i <= v@.len(),
            p == is_char(c),
            forall|j: int| 0 <= j < i ==> !p(#[trigger] v@[j]),
        decreases v.len() - i,
    {
        if v[i] == c {
            proof {
                lemma_first_index(v@, p, Some(i as int));
            }
            return Some(i);
        }
        i += 1;
    }
    proof {
        lemma_first_index(v@, p, None);
    }
    None
}

fn copy_range(v: &Vec<char>, start: usize, end: usize) -> (r: Vec<char>)
    requires
        start <= end <= v.len(),
    ensures
        r@ == v@.subrange(start as int, end as int),
{
    let mut r: Vec<char> = Vec::new();
    let mut i: usize = start;
    while i < end
        invariant
            start <= i <= end <= v.len(),
            r@ == v@.subrange(start as int, i as int),
        decreases end - i,
    {
        r.push(v[i]);
        assert(v@.subrange(start as int, i + 1) == v@.subrange(start as int, i as int).push(
            v@[i as int],
        ));
        i += 1;
    }
    r
}

fn split_before(v: &Vec<char>, c: char) -> (r: (Vec<char>, Option<Vec<char>>))
    ensures
        r.0@ == before_char(v@, c),
        match r.1 {
            Some(t) => after_char(v@, c) == Some(t@),
            None => after_char(v@, c) is None,
        },
{
    match find_char(v, c) {
        Some(i) => {
            let head = copy_range(v, 0, i);
            let tail = copy_range(v, i + 1, v.len());
            assert(v@.subrange(0, i as int) =~= v@.take(i as int));
            assert(v@.subrange(i + 1, v@.len() as int) =~= v@.skip(i + 1));
            (head, Some(tail))
        },
        None => {
            let all = copy_range(v, 0, v.len());
            assert(v@.subrange(0, v@.len() as int) =~= v@);
            (all, None)
        },
    }
}

fn strip_vs(v: &Vec<char>) -> (r: Vec<char>)
    ensures
        r@ == strip_leading_v(v@),
{
    let mut i: usize = 0;
    assert(v@.subrange(0, v@.len() as int) =~= v@);
    while i < v.len() && v[i] == 'v'
        invariant
            i <= v.len(),
            strip_leading_v(v@) == strip_leading_v(v@.subrange(i as int, v@.len() as int)),
        decreases v.len() - i,
    {
        let ghost t = v@.subrange(i as int, v@.len() as int);
        assert(t.drop_first() =~= v@.subrange(i + 1, v@.len() as int));
        i += 1;
    }
    let r = copy_range(v, i, v.len());
    proof {
        let t = v@.subrange(i as int, v@.len() as int);
        if t.len() > 0 {
            assert(t[0] == v@[i as int]);
        }
    }
    r
}

/// Parses a release version.
pub fn parse_version(value: &str) -> (r: Result<(u32, u32, u32), VersionError>)
    ensures
        match parse_version_spec(value@) {
            Ok(t) => r == Ok::<(u32, u32, u32), VersionError>(t),
            Err(VersionError::Number(e)) => r == Err::<(u32, u32, u32), VersionError>(VersionError::Number(e)),
            Err(VersionError::TooManyParts(_)) => r matches Err(VersionError::TooManyParts(m))
                && m@ == version_core_text(value@),
        },
{
    proof {
        assert(strip_leading_v(Seq::<char>::empty()) == Seq::<char>::empty());
    }
    let raw = chars_of(value);
    let trimmed = trim_chars(&raw);
    let v = strip_vs(&trimmed);
    let (core, _) = split_before(&v, '-');
    let (f0, r1) = split_before(&core, '.');
    let zero = chars_of("0");
    let (f1, r2) = match &r1 {
        Some(t) => split_before(t, '.'),
        None => (copy_range(&zero, 0, zero.len()), None),
    };
    proof {
        assert(zero@.subrange(0, zero@.len() as int) =~= zero@);
    }
    let (f2, more) = match &r2 {
        Some(t) => {
            let (h, rest) = split_before(t, '.');
            (h, rest.is_some())
        },
        None => (copy_range(&zero, 0, zero.len()), false),
    };
    let major = match parse_u32(&f0) {
        Ok(n) => n,
        Err(e) => return Err(VersionError::Number(e)),
    };
    let minor = match parse_u32(&f1) {
        Ok(n) => n,
        Err(e) => return Err(VersionError::Number(e)),
    };
    let patch = match parse_u32(&f2) {
        Ok(n) => n,
        Err(e) => return Err(VersionError::Number(e)),
    };
    if more {
        let mut m = String::new();
        push_chars(&mut m, &v);
        return Err(VersionError::TooManyParts(m));
    }
    Ok((major, minor, patch))
}

/// Lexicographic order of `(major, minor, patch)`.
pub open spec fn version_greater(a: (u32, u32, u32), b: (u32, u32, u32)) -> bool {
    a.0 > b.0 || (a.0 == b.0 && (a.1 > b.1 || (a.1 == b.1 && a.2 > b.2)))
}

pub fn version_is_greater(a: (u32, u32, u32), b: (u32, u32, u32)) -> (r: bool)
    ensures
        r == version_greater(a, b),
{
    a.0 > b.0 || (a.0 == b.0 && (a.1 > b.1 || (a.1 == b.1 && a.2 > b.2)))
}

/// Whether the offered release `candidate` is newer than the running `current`.
pub fn is_newer_version(candidate: &str, current: &str) -> (r: Result<bool, VersionError>)
    ensures
        match (parse_version_spec(candidate@), parse_version_spec(current@)) {
            (Ok(a), Ok(b)) => r == Ok::<bool, VersionError>(version_greater(a, b)),
            (Err(_), _) => r is Err && version_error_text(r->Err_0) == version_failure_text(candidate@),
            (Ok(_), Err(_)) => r is Err && version_error_text(r->Err_0) == version_failure_text(current@),
        },
{
    let a = match parse_version(candidate) {
        Ok(t) => t,
        Err(e) => return Err(e),
    };
    let b = match parse_version(current) {
        Ok(t) => t,
        Err(e) => return Err(e),
    };
    Ok(version_is_greater(a, b))
}

/// No version is newer than itself.
pub proof fn lemma_version_greater_irreflexive(a: (u32, u32, u32))
    ensures
        !version_greater(a, a),
{
}

/// Of two versions at most one is newer than the other, and "newer" is transitive.
pub proof fn lemma_version_greater_order(a: (u32, u32, u32), b: (u32, u32, u32), c: (u32, u32, u32))
    ensures
        version_greater(a, b) ==> !version_greater(b, a),
        version_greater(a, b) && version_greater(b, c) ==> version_greater(a, c),
        a != b ==> version_greater(a, b) || version_greater(b, a),
{
}

/// "Newer" follows the numbers field by field: a larger major is newer; with equal majors a
/// numerically larger minor is newer (so 0.10.0 is newer than 0.9.0); with equal majors and
/// minors a numerically larger patch is newer. With the order laws above this makes it the
/// lexicographic order of the three integers.
pub proof fn lemma_version_greater_is_numeric(a: (u32, u32, u32), b: (u32, u32, u32))
    ensures
        a.0 > b.0 ==> version_greater(a, b),
        a.0 == b.0 && a.1 > b.1 ==> version_greater(a, b),
        a.0 == b.0 && a.1 == b.1 && a.2 > b.2 ==> version_greater(a, b),
        a.0 < b.0 ==> !version_greater(a, b),
        a.0 == b.0 && a.1 < b.1 ==> !version_greater(a, b),
        a.0 == b.0 && a.1 == b.1 && a.2 <= b.2 ==> !version_greater(a, b),
{
}

// ---------------------------------------------------------------------------------------------
// Release manifest and update events
// ---------------------------------------------------------------------------------------------

/// Where the manifest of the latest release is published.
pub const UPDATE_MANIFEST_URL: &'static str = "https://github.com/denghaoxuan991876906/ClearLine/releases/latest/download/update.json";

/// The published description of a release.
#[derive(Debug, Clone)]
pub struct UpdateManifest {
    pub version: String,
    pub installer_url: String,
    pub sha256: String,
    pub notes: Vec<String>,
}

/// What an update task reports back.
#[derive(Debug)]
pub enum UpdateEvent {
    /// The check finished: the newer release, or `None` when the running one is current.
    Checked(Option<UpdateManifest>),
    /// The installer of `manifest` was downloaded and verified at `installer`.
    Downloaded { manifest: UpdateManifest, installer: std::path::PathBuf },
    /// The task failed; the text says why.
    Failed(String),
}

/// What a finished check reports: the fetched release when it is newer than
/// `current_version`, nothing when it is not, or the failure (of the fetch, or of reading
/// either version).
pub fn check_outcome(fetched: Result<UpdateManifest, String>, current_version: &str) -> (r: UpdateEvent)
    ensures
        match fetched {
            Err(e) => r matches UpdateEvent::Failed(m) && m@ == e@,
            Ok(manifest) => match (parse_version_spec(manifest.version@), parse_version_spec(current_version@)) {
                (Ok(a), Ok(b)) => if version_greater(a, b) {
                    r matches UpdateEvent::Checked(Some(m)) && m.version@ == manifest.version@
                        && m.installer_url@ == manifest.installer_url@ && m.sha256@ == manifest.sha256@
                } else {
                    r matches UpdateEvent::Checked(None)
                },
                (Err(_), _) => r matches UpdateEvent::Failed(m) && m@ == version_failure_text(manifest.version@),
                (Ok(_), Err(_)) => r matches UpdateEvent::Failed(m) && m@ == version_failure_text(current_version@),
            },
        },
{
    match fetched {
        Err(e) => UpdateEvent::Failed(e),
        Ok(manifest) => match is_newer_version(manifest.version.as_str(), current_version) {
            Ok(true) => UpdateEvent::Checked(Some(manifest)),
            Ok(false) => UpdateEvent::Checked(None),
            Err(error) => UpdateEvent::Failed(error.message()),
        },
    }
}

/// What a finished download reports.
pub fn download_outcome(manifest: UpdateManifest, result: Result<std::path::PathBuf, String>) -> (r:
    UpdateEvent)
    ensures
        match result {
            Ok(p) => r matches UpdateEvent::Downloaded { manifest: m, installer } && installer == p
                && m.version@ == manifest.version@,
            Err(e) => r matches UpdateEvent::Failed(m) && m@ == e@,
        },
{
    match result {
        Ok(installer) => UpdateEvent::Downloaded { manifest, installer },
        Err(e) => UpdateEvent::Failed(e),
    }
}

/// The directory names, below the local data directory, where the installer of `version`
/// is downloaded.
pub fn update_dir_parts(version: &str) -> (r: (&'static str, &'static str, String))
    ensures
        r.0@ == "ClearLine"@,
        r.1@ == "updates"@,
        r.2@ == version@,
{
    ("ClearLine", "updates", version.to_string())
}

/// The file the download goes to until it is verified.
pub const INSTALLER_DOWNLOAD_NAME: &'static str = "ClearLineSetup.exe.download";

/// The verified installer's file name.
pub const INSTALLER_NAME: &'static str = "ClearLineSetup.exe";

/// The message for an installer whose checksum does not match.
pub const CHECKSUM_MISMATCH_MESSAGE: &'static str = "安装包 SHA256 校验失败";

// ---------------------------------------------------------------------------------------------
// Installer checksum
// ---------------------------------------------------------------------------------------------

/// The SHA-256 digest of a byte string.
pub uninterp spec fn sha256_of(data: Seq<u8>) -> Seq<u8>;

/// `Sha256::digest` of `sha2`: the 32-byte SHA-256 digest of `data`.
#[verifier::external_body]
fn sha256_digest(data: &[u8]) -> (r: Vec<u8>)
    ensures
        r@ == sha256_of(data@),
        r@.len() == 32,
{
    sha2::Sha256::digest(data).to_vec()
}

/// The uppercase hexadecimal digit for `d < 16`.
pub open spec fn upper_hex_digit(d: u8) -> char {
    if d < 10 {
        (d + 48) as char
    } else {
        (d + 55) as char
    }
}

/// Two uppercase hexadecimal digits per byte, most significant first.
pub open spec fn upper_hex(bytes: Seq<u8>) -> Seq<char>
    decreases bytes.len(),
{
    if bytes.len() == 0 {
        Seq::empty()
    } else {
        upper_hex(bytes.drop_last()) + seq![upper_hex_digit(bytes.last() / 16), upper_hex_digit(bytes.last() % 16)]
    }
}

fn hex_digit(d: u8) -> (c: char)
    requires
        d < 16,
    ensures
        c == upper_hex_digit(d),
{
    if d < 10 {
        let b: u8 = d + 48;
        b as char
    } else {
        let b: u8 = d + 55;
        b as char
    }
}

/// The bytes in uppercase hexadecimal.
pub fn upper_hex_string(bytes: &[u8]) -> (r: String)
    ensures
        r@ == upper_hex(bytes@),
{
    let mut out: Vec<char> = Vec::new();
    let mut i: usize = 0;
    while i < bytes.len()
        invariant
            i <= bytes.len(),
            out@ == upper_hex(bytes@.take(i as int)),
        decreases bytes.len() - i,
    {
        let b = bytes[i];
        out.push(hex_digit(b / 16));
        out.push(hex_digit(b % 16));
        assert(bytes@.take(i + 1).drop_last() =~= bytes@.take(i as int));
        assert(out@ =~= upper_hex(bytes@.take(i + 1)));
        i += 1;
    }
    assert(bytes@.take(bytes.len() as int) =~= bytes@);
    crate::text::string_from_chars(&out)
}

/// `str::eq_ignore_ascii_case`: same length, and the same characters once ASCII letters are
/// lowercased.
pub open spec fn eq_ignore_ascii_case_spec(a: Seq<char>, b: Seq<char>) -> bool {
    a.len() == b.len() && forall|i: int| 0 <= i < a.len() ==> ascii_lower(#[trigger] a[i]) == ascii_lower(b[i])
}

/// Compares two texts ignoring the case of ASCII letters.
pub fn eq_ignore_ascii_case(a: &str, b: &str) -> (r: bool)
    ensures
        r == eq_ignore_ascii_case_spec(a@, b@),
{
    let va = chars_of(a);
    let vb = chars_of(b);
    if va.len() != vb.len() {
        return false;
    }
    let mut i: usize = 0;
    while i < va.len()
        invariant
            i <= va.len(),
            va.len() == vb.len(),
            va@ == a@,
            vb@ == b@,
            forall|k: int| 0 <= k < i ==> ascii_lower(#[trigger] va@[k]) == ascii_lower(vb@[k]),
        decreases va.len() - i,
    {
        if lower_char(va[i]) != lower_char(vb[i]) {
            return false;
        }
        i += 1;
    }
    true
}

/// Whether a downloaded installer matches the published checksum: its SHA-256 in
/// hexadecimal equals the published text, trimmed, ignoring letter case.
pub fn installer_checksum_matches(installer: &[u8], expected: &str) -> (r: bool)
    ensures
        r == eq_ignore_ascii_case_spec(upper_hex(sha256_of(installer@)), trim(expected@)),
{
    let digest = sha256_digest(installer);
    let actual = upper_hex_string(digest.as_slice());
    let trimmed = crate::text::string_from_chars(&trim_chars(&chars_of(expected)));
    eq_ignore_ascii_case(actual.as_str(), trimmed.as_str())
}

} // verus!
