//! Audio endpoints as the operating system lists them, their display names, and the
//! selection of one endpoint by its identifier.
use vstd::prelude::*;
use vstd::string::*;
use crate::error::ClearLineError;
use crate::text::{
    ascii_lowercase, chars_of, decimal, last_index_of, lemma_last_index_of, lowercase_chars,
    push_decimal, rfind_char, seq_eq, str_eq, string_from_chars, trim, trim_chars,
};

verus! {

broadcast use vstd::string::group_string_axioms;

/// `r` is the position of the first element of `s` that satisfies `p`, or `None` when no
/// element does.
pub open spec fn is_first_match<T>(s: Seq<T>, p: spec_fn(T) -> bool, r: Option<int>) -> bool {
    match r {
        Some(i) => 0 <= i < s.len() && p(s[i]) && forall|j: int| 0 <= j < i ==> !p(#[trigger] s[j]),
        None => forall|j: int| 0 <= j < s.len() ==> !p(#[trigger] s[j]),
    }
}

/// The position of the first element of `s` that satisfies `p`.
pub open spec fn first_index<T>(s: Seq<T>, p: spec_fn(T) -> bool) -> Option<int>
    decreases s.len(),
{
    if s.len() == 0 {
        None
    } else if p(s[0]) {
        Some(0)
    } else {
        match first_index(s.drop_first(), p) {
            Some(i) => Some(i + 1),
            None => None,
        }
    }
}

/// `first_index` is the first match, and the first match is unique.
pub proof fn lemma_first_index<T>(s: Seq<T>, p: spec_fn(T) -> bool, r: Option<int>)
    ensures
        is_first_match(s, p, first_index(s, p)),
        is_first_match(s, p, r) ==> r == first_index(s, p),
    decreases s.len(),
{
    if s.len() > 0 {
        let t = s.drop_first();
        let rt = match r {
            Some(i) => Some(i - 1),
            None => None,
        };
        lemma_first_index(t, p, rt);
        assert forall|j: int| 0 <= j < t.len() implies t[j] == s[j + 1] by {}
        if !p(s[0]) {
            if is_first_match(s, p, r) {
                assert(r != Some(0int));
                match r {
                    Some(i) => {
                        assert forall|j: int| 0 <= j < i - 1 implies !p(#[trigger] t[j]) by {
                            assert(!p(s[j + 1]));
                        }
                        assert(is_first_match(t, p, rt));
                    },
                    None => {
                        assert forall|j: int| 0 <= j < t.len() implies !p(#[trigger] t[j]) by {
                            assert(!p(s[j + 1]));
                        }
                        assert(is_first_match(t, p, rt));
                    },
                }
            }
            match first_index(t, p) {
                Some(i) => {
                    assert forall|j: int| 0 <= j < i + 1 implies !p(#[trigger] s[j]) by {
                        if j > 0 {
                            assert(s[j] == t[j - 1]);
                        }
                    }
                },
                None => {
                    assert forall|j: int| 0 <= j < s.len() implies !p(#[trigger] s[j]) by {
                        if j > 0 {
                            assert(s[j] == t[j - 1]);
                        }
                    }
                },
            }
        } else {
            if is_first_match(s, p, r) {
                match r {
                    Some(i) => {
                        if i > 0 {
                            assert(!p(s[0]));
                        }
                    },
                    None => {
                        assert(!p(s[0]));
                    },
                }
            }
        }
    }
}

/// The identifier that the audio backend gives an endpoint.
#[derive(Debug, Clone, PartialEq, Eq, Hash)]
pub struct DeviceId(String);

impl View for DeviceId {
    type V = Seq<char>;

    closed spec fn view(&self) -> Seq<char> {
        self.0@
    }
}

impl DeviceId {
    pub fn new(value: &str) -> (r: Self)
        ensures
            r@ == value@,
    {
        DeviceId(String::from_str(value))
    }

    pub fn from_string(value: String) -> (r: Self)
        ensures
            r@ == value@,
    {
        DeviceId(value)
    }

    pub fn as_str(&self) -> (r: &str)
        ensures
            r@ == self@,
    {
        self.0.as_str()
    }

    /// Whether two identifiers are the same.
    pub fn same_as(&self, other: &DeviceId) -> (r: bool)
        ensures
            r == (self@ == other@),
    {
        self.0 == other.0
    }

    pub fn duplicate(&self) -> (r: DeviceId)
        ensures
            r@ == self@,
    {
        DeviceId(self.0.clone())
    }
}

// ---------------------------------------------------------------------------------------------
// Display names
// ---------------------------------------------------------------------------------------------

pub open spec fn is_ascii_alphanumeric(c: char) -> bool {
    ('a' <= c && c <= 'z') || ('A' <= c && c <= 'Z') || ('0' <= c && c <= '9')
}

/// The lower-case endpoint-type labels that Windows puts in front of the hardware name.
pub open spec fn is_generic_endpoint_label(s: Seq<char>) -> bool {
    ||| s == "microphone"@
    ||| s == "microphone array"@
    ||| s == "headset microphone"@
    ||| s == "line in"@
    ||| s == "line out"@
    ||| s == "stereo mix"@
    ||| s == "recording device"@
    ||| s == "speaker"@
    ||| s == "speakers"@
    ||| s == "headphone"@
    ||| s == "headphones"@
    ||| s == "headset"@
    ||| s == "playback device"@
}

/// The hardware name in a trailing `(...)` group, when there is a non-empty prefix before it.
pub open spec fn trailing_hardware_name(name: Seq<char>) -> Option<Seq<char>> {
    let n = trim(name);
    if n.len() == 0 || n.last() != ')' {
        None
    } else {
        match last_index_of(n, '(') {
            None => None,
            Some(open) => {
                let prefix = trim(n.subrange(0, open));
                let hardware = trim(n.subrange(open + 1, n.len() - 1));
                if prefix.len() == 0 || hardware.len() == 0 {
                    None
                } else {
                    Some(hardware)
                }
            },
        }
    }
}

/// Whether the text before the last `(` is a generic endpoint label, or holds no ASCII
/// letter or digit (a localised label that the UI font cannot show).
pub open spec fn has_generic_endpoint_prefix(name: Seq<char>) -> bool {
    match last_index_of(name, '(') {
        None => false,
        Some(open) => {
            let prefix = trim(name.subrange(0, open));
            is_generic_endpoint_label(ascii_lowercase(prefix)) || !(exists|i: int|
                0 <= i < prefix.len() && is_ascii_alphanumeric(#[trigger] prefix[i]))
        },
    }
}

/// The name shown for an endpoint: the trimmed raw name, or the hardware name when the raw
/// name is `<generic label> (<hardware>)`.
pub open spec fn clean_endpoint_device_name(raw: Seq<char>) -> Seq<char> {
    let trimmed = trim(raw);
    match trailing_hardware_name(trimmed) {
        Some(hardware) => if has_generic_endpoint_prefix(trimmed) {
            hardware
        } else {
            trimmed
        },
        None => trimmed,
    }
}

fn sub_chars(v: &Vec<char>, start: usize, end: usize) -> (r: Vec<char>)
    requires
        start <= end <= v.len(),
    ensures
        r@ == v@.subrange(start as int, end as int),
{
    let mut r: Vec<char> = Vec::new();
    let mut i: usize = start;
    while i < end
        invariant
            start <= i <= end <= v.len(),
            r@ == v@.subrange(start as int, i as int),
        decreases end - i,
    {
        r.push(v[i]);
        assert(v@.subrange(start as int, i + 1) == v@.subrange(start as int, i as int).push(
            v@[i as int],
        ));
        i += 1;
    }
    r
}

fn trailing_hardware_name_chars(name: &Vec<char>) -> (r: Option<Vec<char>>)
    ensures
        match r {
            Some(h) => trailing_hardware_name(name@) == Some(h@),
            None => trailing_hardware_name(name@) is None,
        },
{
    let n = trim_chars(name);
    if n.len() == 0 || n[n.len() - 1] != ')' {
        return None;
    }
    let open = match rfind_char(&n, '(') {
        Some(i) => i,
        None => return None,
    };
    proof {
        lemma_last_index_of(n@, '(');
    }
    let prefix_raw = sub_chars(&n, 0, open);
    let prefix = trim_chars(&prefix_raw);
    let hardware_raw = sub_chars(&n, open + 1, n.len() - 1);
    let hardware = trim_chars(&hardware_raw);
    if prefix.len() == 0 || hardware.len() == 0 {
        return None;
    }
    Some(hardware)
}

fn is_ascii_alnum(c: char) -> (r: bool)
    ensures
        r == is_ascii_alphanumeric(c),
{
    ('a' <= c && c <= 'z') || ('A' <= c && c <= 'Z') || ('0' <= c && c <= '9')
}

fn has_ascii_alphanumeric(v: &Vec<char>) -> (r: bool)
    ensures
        r == exists|i: int| 0 <= i < v@.len() && is_ascii_alphanumeric(#[trigger] v@[i]),
{
    let mut i: usize = 0;
    while i < v.len()
        invariant
            i <= v.len(),
            forall|j: int| 0 <= j < i ==> !is_ascii_alphanumeric(#[trigger] v@[j]),
        decreases v.len() - i,
    {
        if is_ascii_alnum(v[i]) {
            return true;
        }
        i += 1;
    }
    false
}

fn equals_literal(v: &Vec<char>, lit: &str) -> (r: bool)
    ensures
        r == (v@ == lit@),
{
    let l = chars_of(lit);
    seq_eq(v, &l)
}

fn is_generic_label_chars(v: &Vec<char>) -> (r: bool)
    ensures
        r == is_generic_endpoint_label(v@),
{
    equals_literal(v, "microphone") || equals_literal(v, "microphone array") || equals_literal(
        v,
        "headset microphone",
    ) || equals_literal(v, "line in") || equals_literal(v, "line out") || equals_literal(
        v,
        "stereo mix",
    ) || equals_literal(v, "recording device") || equals_literal(v, "speaker")
        || equals_literal(v, "speakers") || equals_literal(v, "headphone") || equals_literal(
        v,
        "headphones",
    ) || equals_literal(v, "headset") || equals_literal(v, "playback device")
}

fn has_generic_endpoint_prefix_chars(name: &Vec<char>) -> (r: bool)
    ensures
        r == has_generic_endpoint_prefix(name@),
{
    let open = match rfind_char(name, '(') {
        Some(i) => i,
        None => return false,
    };
    proof {
        lemma_last_index_of(name@, '(');
    }
    let prefix_raw = sub_chars(name, 0, open);
    let prefix = trim_chars(&prefix_raw);
    let lower = lowercase_chars(&prefix);
    is_generic_label_chars(&lower) || !has_ascii_alphanumeric(&prefix)
}

/// Cleans a raw endpoint name for display.
pub fn clean_endpoint_name(raw: &str) -> (r: String)
    ensures
        r@ == clean_endpoint_device_name(raw@),
{
    let raw_chars = chars_of(raw);
    let trimmed = trim_chars(&raw_chars);
    match trailing_hardware_name_chars(&trimmed) {
        Some(hardware) => {
            if has_generic_endpoint_prefix_chars(&trimmed) {
                string_from_chars(&hardware)
            } else {
                string_from_chars(&trimmed)
            }
        },
        None => string_from_chars(&trimmed),
    }
}


/// An audio capture endpoint.
#[derive(Debug, Clone, PartialEq, Eq)]
pub struct AudioInputDevice {
    id: DeviceId,
    name: String,
    is_default: bool,
    sample_rate_hz: Option<u32>,
    channels: Option<u16>,
}

impl AudioInputDevice {
    /// Holds of the endpoints whose identifier is `id`.
    pub open spec fn with_id_pred(id: Seq<char>) -> spec_fn(AudioInputDevice) -> bool {
        |d: AudioInputDevice| d.spec_id() == id
    }

    pub closed spec fn spec_id(&self) -> Seq<char> {
        self.id@
    }

    pub closed spec fn spec_name(&self) -> Seq<char> {
        self.name@
    }

    pub closed spec fn spec_is_default(&self) -> bool {
        self.is_default
    }

    pub closed spec fn spec_sample_rate_hz(&self) -> Option<u32> {
        self.sample_rate_hz
    }

    pub closed spec fn spec_channels(&self) -> Option<u16> {
        self.channels
    }

    /// An endpoint with its raw name cleaned for display and no known default format.
    pub fn new(id: &str, name: &str, is_default: bool) -> (r: Self)
        ensures
            r.spec_id() == id@,
            r.spec_name() == clean_endpoint_device_name(name@),
            r.spec_is_default() == is_default,
            r.spec_sample_rate_hz() is None,
            r.spec_channels() is None,
    {
        AudioInputDevice {
            id: DeviceId::new(id),
            name: clean_endpoint_name(name),
            is_default,
            sample_rate_hz: None,
            channels: None,
        }
    }

    /// Same as `new`, with an identifier that is already a `DeviceId`.
    pub fn with_id(id: DeviceId, name: &str, is_default: bool) -> (r: Self)
        ensures
            r.spec_id() == id@,
            r.spec_name() == clean_endpoint_device_name(name@),
            r.spec_is_default() == is_default,
            r.spec_sample_rate_hz() is None,
            r.spec_channels() is None,
    {
        AudioInputDevice {
            id,
            name: clean_endpoint_name(name),
            is_default,
            sample_rate_hz: None,
            channels: None,
        }
    }

    pub fn with_default_format(self, sample_rate_hz: Option<u32>, channels: Option<u16>) -> (r:
        Self)
        ensures
            r.spec_id() == self.spec_id(),
            r.spec_name() == self.spec_name(),
            r.spec_is_default() == self.spec_is_default(),
            r.spec_sample_rate_hz() == sample_rate_hz,
            r.spec_channels() == channels,
    {
        let mut r = self;
        r.sample_rate_hz = sample_rate_hz;
        r.channels = channels;
        r
    }

    pub fn id(&self) -> (r: &DeviceId)
        ensures
            r@ == self.spec_id(),
    {
        &self.id
    }

    pub fn name(&self) -> (r: &str)
        ensures
            r@ == self.spec_name(),
    {
        self.name.as_str()
    }

    pub fn is_default(&self) -> (r: bool)
        ensures
            r == self.spec_is_default(),
    {
        self.is_default
    }

    pub fn sample_rate_hz(&self) -> (r: Option<u32>)
        ensures
            r == self.spec_sample_rate_hz(),
    {
        self.sample_rate_hz
    }

    pub fn channels(&self) -> (r: Option<u16>)
        ensures
            r == self.spec_channels(),
    {
        self.channels
    }
}

/// The endpoint that the user picked, kept by identifier.
#[derive(Debug, Default, Clone, PartialEq, Eq)]
pub struct InputDeviceSelector {
    selected: Option<DeviceId>,
}

impl InputDeviceSelector {
    pub closed spec fn spec_selected(&self) -> Option<Seq<char>> {
        match self.selected {
            Some(id) => Some(id@),
            None => None,
        }
    }

    pub fn new() -> (r: Self)
        ensures
            r.spec_selected() is None,
    {
        InputDeviceSelector { selected: None }
    }

    pub fn select(&mut self, device_id: DeviceId)
        ensures
            final(self).spec_selected() == Some(device_id@),
    {
        self.selected = Some(device_id);
    }

    pub fn clear(&mut self)
        ensures
            final(self).spec_selected() is None,
    {
        self.selected = None;
    }

    pub fn selected(&self) -> (r: Option<&DeviceId>)
        ensures
            match r {
                Some(id) => self.spec_selected() == Some(id@),
                None => self.spec_selected() is None,
            },
    {
        match &self.selected {
            Some(id) => Some(id),
            None => None,
        }
    }

    /// The first listed endpoint whose identifier is the selected one.
    pub fn resolve<'a>(&self, devices: &'a [AudioInputDevice]) -> (r: Option<&'a AudioInputDevice>)
        ensures
            match self.spec_selected() {
                None => r is None,
                Some(id) => match r {
                    Some(d) => exists|i: int|
                        is_first_match(devices@, AudioInputDevice::with_id_pred(id), Some(i))
                            && *d == #[trigger] devices@[i],
                    None => is_first_match(devices@, AudioInputDevice::with_id_pred(id), None),
                },
            },
    {
        let selected = match &self.selected {
            Some(id) => id,
            None => return None,
        };
        let ghost p = AudioInputDevice::with_id_pred(selected@);
        let mut i: usize = 0;
        while i < devices.len()
            invariant
                i <= devices@.len(),
                p == AudioInputDevice::with_id_pred(selected@),
                self.spec_selected() == Some(selected@),
                forall|j: int| 0 <= j < i ==> !p(#[trigger] devices@[j]),
            decreases devices.len() - i,
        {
            if devices[i].id.same_as(selected) {
                assert(p(devices@[i as int]));
                assert(is_first_match(devices@, p, Some(i as int)));
                let found = &devices[i];
                assert(*found == devices@[i as int]);
                return Some(found);
            }
            i += 1;
        }
        assert(is_first_match(devices@, p, None));
        None
    }
}

/// An audio render endpoint.
#[derive(Debug, Clone, PartialEq, Eq)]
pub struct AudioOutputDevice {
    id: DeviceId,
    name: String,
    is_default: bool,
    sample_rate_hz: Option<u32>,
    channels: Option<u16>,
}

impl AudioOutputDevice {
    /// Holds of the endpoints whose identifier is `id`.
    pub open spec fn with_id_pred(id: Seq<char>) -> spec_fn(AudioOutputDevice) -> bool {
        |d: AudioOutputDevice| d.spec_id() == id
    }

    pub closed spec fn spec_id(&self) -> Seq<char> {
        self.id@
    }

    pub closed spec fn spec_name(&self) -> Seq<char> {
        self.name@
    }

    pub closed spec fn spec_is_default(&self) -> bool {
        self.is_default
    }

    pub closed spec fn spec_sample_rate_hz(&self) -> Option<u32> {
        self.sample_rate_hz
    }

    pub closed spec fn spec_channels(&self) -> Option<u16> {
        self.channels
    }

    /// An endpoint with its raw name cleaned for display and no known default format.
    pub fn new(id: &str, name: &str, is_default: bool) -> (r: Self)
        ensures
            r.spec_id() == id@,
            r.spec_name() == clean_endpoint_device_name(name@),
            r.spec_is_default() == is_default,
            r.spec_sample_rate_hz() is None,
            r.spec_channels() is None,
    {
        AudioOutputDevice {
            id: DeviceId::new(id),
            name: clean_endpoint_name(name),
            is_default,
            sample_rate_hz: None,
            channels: None,
        }
    }

    /// Same as `new`, with an identifier that is already a `DeviceId`.
    pub fn with_id(id: DeviceId, name: &str, is_default: bool) -> (r: Self)
        ensures
            r.spec_id() == id@,
            r.spec_name() == clean_endpoint_device_name(name@),
            r.spec_is_default() == is_default,
            r.spec_sample_rate_hz() is None,
            r.spec_channels() is None,
    {
        AudioOutputDevice {
            id,
            name: clean_endpoint_name(name),
            is_default,
            sample_rate_hz: None,
            channels: None,
        }
    }

    pub fn with_default_format(self, sample_rate_hz: Option<u32>, channels: Option<u16>) -> (r:
        Self)
        ensures
            r.spec_id() == self.spec_id(),
            r.spec_name() == self.spec_name(),
            r.spec_is_default() == self.spec_is_default(),
            r.spec_sample_rate_hz() == sample_rate_hz,
            r.spec_channels() == channels,
    {
        let mut r = self;
        r.sample_rate_hz = sample_rate_hz;
        r.channels = channels;
        r
    }

    pub fn id(&self) -> (r: &DeviceId)
        ensures
            r@ == self.spec_id(),
    {
        &self.id
    }

    pub fn name(&self) -> (r: &str)
        ensures
            r@ == self.spec_name(),
    {
        self.name.as_str()
    }

    pub fn is_default(&self) -> (r: bool)
        ensures
            r == self.spec_is_default(),
    {
        self.is_default
    }

    pub fn sample_rate_hz(&self) -> (r: Option<u32>)
        ensures
            r == self.spec_sample_rate_hz(),
    {
        self.sample_rate_hz
    }

    pub fn channels(&self) -> (r: Option<u16>)
        ensures
            r == self.spec_channels(),
    {
        self.channels
    }
}

/// The endpoint that the user picked, kept by identifier.
#[derive(Debug, Default, Clone, PartialEq, Eq)]
pub struct OutputDeviceSelector {
    selected: Option<DeviceId>,
}

impl OutputDeviceSelector {
    pub closed spec fn spec_selected(&self) -> Option<Seq<char>> {
        match self.selected {
            Some(id) => Some(id@),
            None => None,
        }
    }

    pub fn new() -> (r: Self)
        ensures
            r.spec_selected() is None,
    {
        OutputDeviceSelector { selected: None }
    }

    pub fn select(&mut self, device_id: DeviceId)
        ensures
            final(self).spec_selected() == Some(device_id@),
    {
        self.selected = Some(device_id);
    }

    pub fn clear(&mut self)
        ensures
            final(self).spec_selected() is None,
    {
        self.selected = None;
    }

    pub fn selected(&self) -> (r: Option<&DeviceId>)
        ensures
            match r {
                Some(id) => self.spec_selected() == Some(id@),
                None => self.spec_selected() is None,
            },
    {
        match &self.selected {
            Some(id) => Some(id),
            None => None,
        }
    }

    /// The first listed endpoint whose identifier is the selected one.
    pub fn resolve<'a>(&self, devices: &'a [AudioOutputDevice]) -> (r: Option<&'a AudioOutputDevice>)
        ensures
            match self.spec_selected() {
                None => r is None,
                Some(id) => match r {
                    Some(d) => exists|i: int|
                        is_first_match(devices@, AudioOutputDevice::with_id_pred(id), Some(i))
                            && *d == #[trigger] devices@[i],
                    None => is_first_match(devices@, AudioOutputDevice::with_id_pred(id), None),
                },
            },
    {
        let selected = match &self.selected {
            Some(id) => id,
            None => return None,
        };
        let ghost p = AudioOutputDevice::with_id_pred(selected@);
        let mut i: usize = 0;
        while i < devices.len()
            invariant
                i <= devices@.len(),
                p == AudioOutputDevice::with_id_pred(selected@),
                self.spec_selected() == Some(selected@),
                forall|j: int| 0 <= j < i ==> !p(#[trigger] devices@[j]),
            decreases devices.len() - i,
        {
            if devices[i].id.same_as(selected) {
                assert(p(devices@[i as int]));
                assert(is_first_match(devices@, p, Some(i as int)));
                let found = &devices[i];
                assert(*found == devices@[i as int]);
                return Some(found);
            }
            i += 1;
        }
        assert(is_first_match(devices@, p, None));
        None
    }
}

// ---------------------------------------------------------------------------------------------
// Enumeration
// ---------------------------------------------------------------------------------------------

/// Lists the endpoints of the system.
pub trait DeviceEnumerator {
    fn input_devices(&self) -> Result<Vec<AudioInputDevice>, ClearLineError>;

    fn output_devices(&self) -> Result<Vec<AudioOutputDevice>, ClearLineError>;
}

/// What the audio backend reports of one endpoint: its name, its identifier (or why it has
/// none), and its default format (sample rate and channels) when it has one.
pub struct EndpointInfo {
    pub name: String,
    pub id: Result<String, String>,
    pub default_format: Option<(u32, u16)>,
}

/// The identifier of the endpoint at `index`: the backend's, or, when it gave none, one made
/// of the direction, the index, the name and the reason.
pub open spec fn endpoint_id_text(direction: Seq<char>, index: nat, name: Seq<char>, id: Result<String, String>) -> Seq<char> {
    match id {
        Ok(s) => s@,
        Err(e) => "cpal-"@ + direction + "-"@ + decimal(index) + ":"@ + name + ":"@ + e@,
    }
}

fn endpoint_id(direction: &str, index: usize, info: &EndpointInfo) -> (r: String)
    ensures
        r@ == endpoint_id_text(direction@, index as nat, info.name@, info.id),
{
    match &info.id {
        Ok(id) => id.clone(),
        Err(error) => {
            let mut r = String::from_str("cpal-");
            r.append(direction);
            r.append("-");
            push_decimal(&mut r, index as u64);
            r.append(":");
            r.append(info.name.as_str());
            r.append(":");
            r.append(error.as_str());
            r
        },
    }
}

fn is_default_id(default_id: Option<&str>, id: &str) -> (r: bool)
    ensures
        r == (default_id matches Some(d) && d@ == id@),
{
    match default_id {
        Some(d) => str_eq(d, id),
        None => false,
    }
}

pub open spec fn format_rate(f: Option<(u32, u16)>) -> Option<u32> {
    match f {
        Some(p) => Some(p.0),
        None => None,
    }
}

pub open spec fn format_channels(f: Option<(u32, u16)>) -> Option<u16> {
    match f {
        Some(p) => Some(p.1),
        None => None,
    }
}

/// The input endpoint listed at `index`.
pub open spec fn input_from_endpoint(d: AudioInputDevice, index: nat, info: EndpointInfo, default_id: Option<Seq<char>>) -> bool {
    let id = endpoint_id_text("input"@, index, info.name@, info.id);
    &&& d.spec_id() == id
    &&& d.spec_name() == clean_endpoint_device_name(info.name@)
    &&& d.spec_is_default() == (default_id == Some(id))
    &&& d.spec_sample_rate_hz() == format_rate(info.default_format)
    &&& d.spec_channels() == format_channels(info.default_format)
}

/// The output endpoint listed at `index`.
pub open spec fn output_from_endpoint(d: AudioOutputDevice, index: nat, info: EndpointInfo, default_id: Option<Seq<char>>) -> bool {
    let id = endpoint_id_text("output"@, index, info.name@, info.id);
    &&& d.spec_id() == id
    &&& d.spec_name() == clean_endpoint_device_name(info.name@)
    &&& d.spec_is_default() == (default_id == Some(id))
    &&& d.spec_sample_rate_hz() == format_rate(info.default_format)
    &&& d.spec_channels() == format_channels(info.default_format)
}

pub open spec fn str_opt_view(o: Option<&str>) -> Option<Seq<char>> {
    match o {
        Some(s) => Some(s@),
        None => None,
    }
}

/// The input devices for the endpoints the backend listed, `default_id` naming the default.
pub fn input_devices_from_endpoints(endpoints: &[EndpointInfo], default_id: Option<&str>) -> (r: Vec<AudioInputDevice>)
    ensures
        r@.len() == endpoints@.len(),
        forall|i: int| 0 <= i < r@.len() ==> input_from_endpoint(#[trigger] r@[i], i as nat, endpoints@[i], str_opt_view(default_id)),
{
    let mut inputs: Vec<AudioInputDevice> = Vec::new();
    let mut i: usize = 0;
    while i < endpoints.len()
        invariant
            i <= endpoints.len(),
            inputs@.len() == i,
            forall|k: int| 0 <= k < i ==> input_from_endpoint(#[trigger] inputs@[k], k as nat, endpoints@[k], str_opt_view(default_id)),
        decreases endpoints.len() - i,
    {
        let info = &endpoints[i];
        let id = endpoint_id("input", i, info);
        let is_default = is_default_id(default_id, id.as_str());
        let (rate, channels) = match info.default_format {
            Some((r, c)) => (Some(r), Some(c)),
            None => (None, None),
        };
        let device = AudioInputDevice::with_id(DeviceId::from_string(id), info.name.as_str(), is_default)
            .with_default_format(rate, channels);
        inputs.push(device);
        i += 1;
    }
    inputs
}

/// The output devices for the endpoints the backend listed, `default_id` naming the default.
pub fn output_devices_from_endpoints(endpoints: &[EndpointInfo], default_id: Option<&str>) -> (r: Vec<AudioOutputDevice>)
    ensures
        r@.len() == endpoints@.len(),
        forall|i: int| 0 <= i < r@.len() ==> output_from_endpoint(#[trigger] r@[i], i as nat, endpoints@[i], str_opt_view(default_id)),
{
    let mut outputs: Vec<AudioOutputDevice> = Vec::new();
    let mut i: usize = 0;
    while i < endpoints.len()
        invariant
            i <= endpoints.len(),
            outputs@.len() == i,
            forall|k: int| 0 <= k < i ==> output_from_endpoint(#[trigger] outputs@[k], k as nat, endpoints@[k], str_opt_view(default_id)),
        decreases endpoints.len() - i,
    {
        let info = &endpoints[i];
        let id = endpoint_id("output", i, info);
        let is_default = is_default_id(default_id, id.as_str());
        let (rate, channels) = match info.default_format {
            Some((r, c)) => (Some(r), Some(c)),
            None => (None, None),
        };
        let device = AudioOutputDevice::with_id(DeviceId::from_string(id), info.name.as_str(), is_default)
            .with_default_format(rate, channels);
        outputs.push(device);
        i += 1;
    }
    outputs
}

} // verus!
