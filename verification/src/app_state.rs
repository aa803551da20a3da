//! The desktop application's state apart from its window: which devices are chosen, which
//! effects are on, how saved settings are applied, and what to do on each user action.
use vstd::prelude::*;
use vstd::string::*;
use crate::device::{
    first_index, lemma_first_index, AudioInputDevice, AudioOutputDevice, DeviceId,
};
use crate::suppressor::SuppressorMode;
use crate::text::{
    ascii_lowercase, chars_of, contains_chars, contains_seq, is_blank, lowercase_chars, str_eq,
    trim,
};

verus! {

broadcast use vstd::string::group_string_axioms;

/// The pages of the main window.
#[derive(Debug, Clone, Copy, PartialEq, Eq, Structural)]
pub enum AppTab {
    Device,
    Status,
}

/// The pages, in the order the tab bar shows them.
pub fn all_app_tabs() -> (r: [AppTab; 2])
    ensures
        r@ == seq![AppTab::Device, AppTab::Status],
{
    let r = [AppTab::Device, AppTab::Status];
    assert(r@ =~= seq![AppTab::Device, AppTab::Status]);
    r
}

/// The window opens on the device page.
pub fn default_app_tab() -> (r: AppTab)
    ensures
        r == AppTab::Device,
{
    AppTab::Device
}

/// The suppressor mode the user has chosen.
#[derive(Debug, Clone, Copy, PartialEq, Eq, Structural)]
pub struct SuppressorModeSelection(pub SuppressorMode);

impl SuppressorModeSelection {
    pub fn value(self) -> (r: SuppressorMode)
        ensures
            r == self.0,
    {
        self.0
    }
}

/// The application starts in high-quality mode.
pub fn default_suppressor_mode() -> (r: SuppressorMode)
    ensures
        r == SuppressorMode::HighQuality,
{
    SuppressorMode::HighQuality
}

/// Whether an endpoint name is a VB-CABLE playback endpoint ("CABLE Input" or
/// "CABLE In 16 Ch"), and not one of the A-D cables of the paid packs.
pub open spec fn is_vb_cable_render_name(name: Seq<char>) -> bool {
    let n = ascii_lowercase(name);
    (contains_seq(n, "cable input"@) || contains_seq(n, "cable in"@)) && !contains_seq(
        n,
        "cable-a"@,
    ) && !contains_seq(n, "cable-b"@) && !contains_seq(n, "cable-c"@) && !contains_seq(
        n,
        "cable-d"@,
    )
}

fn contains_literal(v: &Vec<char>, lit: &str) -> (r: bool)
    ensures
        r == contains_seq(v@, lit@),
{
    let p = chars_of(lit);
    contains_chars(v, &p)
}

pub fn is_vb_cable_render_device_name(name: &str) -> (r: bool)
    ensures
        r == is_vb_cable_render_name(name@),
{
    let raw = chars_of(name);
    let n = lowercase_chars(&raw);
    (contains_literal(&n, "cable input") || contains_literal(&n, "cable in")) && !contains_literal(
        &n,
        "cable-a",
    ) && !contains_literal(&n, "cable-b") && !contains_literal(&n, "cable-c")
        && !contains_literal(&n, "cable-d")
}

/// Holds of the endpoints whose name is `name`.
pub open spec fn input_named(name: Seq<char>) -> spec_fn(AudioInputDevice) -> bool {
    |d: AudioInputDevice| d.spec_name() == name
}

/// Holds of the default endpoints.
pub open spec fn input_is_default() -> spec_fn(AudioInputDevice) -> bool {
    |d: AudioInputDevice| d.spec_is_default()
}

/// A saved text that is present and not blank.
pub open spec fn usable(saved: Option<Seq<char>>) -> bool {
    saved matches Some(v) && trim(v).len() > 0
}

/// The input device to restore: the saved identifier if it is listed, else the saved name if
/// a device has it, else the default device, else the first device.
pub open spec fn restored_input(
    saved_id: Option<Seq<char>>,
    saved_name: Option<Seq<char>>,
    devices: Seq<AudioInputDevice>,
) -> Option<Seq<char>> {
    let by_id = match saved_id {
        Some(id) => first_index(devices, AudioInputDevice::with_id_pred(id)),
        None => None,
    };
    let by_name = match saved_name {
        Some(name) => first_index(devices, input_named(name)),
        None => None,
    };
    if usable(saved_id) && by_id is Some {
        Some(devices[by_id->0].spec_id())
    } else if usable(saved_name) && by_name is Some {
        Some(devices[by_name->0].spec_id())
    } else {
        fallback_input(devices)
    }
}

/// The input device chosen when nothing else decides: the default device, else the first.
pub open spec fn fallback_input(devices: Seq<AudioInputDevice>) -> Option<Seq<char>> {
    match first_index(devices, input_is_default()) {
        Some(i) => Some(devices[i].spec_id()),
        None => if devices.len() > 0 {
            Some(devices[0].spec_id())
        } else {
            None
        },
    }
}


pub open spec fn view_opt_str(s: Option<&str>) -> Option<Seq<char>> {
    match s {
        Some(v) => Some(v@),
        None => None,
    }
}

pub(crate) fn find_input_by_id(devices: &[AudioInputDevice], id: &str) -> (r: Option<usize>)
    ensures
        match r {
            Some(i) => i < devices@.len() && first_index(devices@, AudioInputDevice::with_id_pred(id@)) == Some(i as int),
            None => first_index(devices@, AudioInputDevice::with_id_pred(id@)) is None,
        },
{
    let ghost p = AudioInputDevice::with_id_pred(id@);
    let mut i: usize = 0;
    while i < devices.len()
        invariant
            i <= devices@.len(),
            p == AudioInputDevice::with_id_pred(id@),
            forall|j: int| 0 <= j < i ==> !p(#[trigger] devices@[j]),
        decreases devices.len() - i,
    {
        if str_eq(devices[i].id().as_str(), id) {
            proof {
                lemma_first_index(devices@, p, Some(i as int));
            }
            return Some(i);
        }
        i += 1;
    }
    proof {
        lemma_first_index(devices@, p, None);
    }
    None
}

pub(crate) fn find_input_by_name(devices: &[AudioInputDevice], name: &str) -> (r: Option<usize>)
    ensures
        match r {
            Some(i) => i < devices@.len() && first_index(devices@, input_named(name@)) == Some(i as int),
            None => first_index(devices@, input_named(name@)) is None,
        },
{
    let ghost p = input_named(name@);
    let mut i: usize = 0;
    while i < devices.len()
        invariant
            i <= devices@.len(),
            p == input_named(name@),
            forall|j: int| 0 <= j < i ==> !p(#[trigger] devices@[j]),
        decreases devices.len() - i,
    {
        if str_eq(devices[i].name(), name) {
            proof {
                lemma_first_index(devices@, p, Some(i as int));
            }
            return Some(i);
        }
        i += 1;
    }
    proof {
        lemma_first_index(devices@, p, None);
    }
    None
}

pub(crate) fn find_default_input(devices: &[AudioInputDevice]) -> (r: Option<usize>)
    ensures
        match r {
            Some(i) => i < devices@.len() && first_index(devices@, input_is_default()) == Some(i as int),
            None => first_index(devices@, input_is_default()) is None,
        },
{
    let ghost p = input_is_default();
    let mut i: usize = 0;
    while i < devices.len()
        invariant
            i <= devices@.len(),
            p == input_is_default(),
            forall|j: int| 0 <= j < i ==> !p(#[trigger] devices@[j]),
        decreases devices.len() - i,
    {
        if devices[i].is_default() {
            proof {
                lemma_first_index(devices@, p, Some(i as int));
            }
            return Some(i);
        }
        i += 1;
    }
    proof {
        lemma_first_index(devices@, p, None);
    }
    None
}

/// Restores an input device from saved settings.
pub fn resolve_device_id_from_settings(
    saved_id: Option<&str>,
    saved_name: Option<&str>,
    devices: &[AudioInputDevice],
) -> (r: Option<DeviceId>)
    ensures
        match r {
            Some(id) => restored_input(view_opt_str(saved_id), view_opt_str(saved_name), devices@)
                == Some(id@),
            None => restored_input(view_opt_str(saved_id), view_opt_str(saved_name), devices@) is None,
        },
{
    proof {
        lemma_first_index(devices@, input_is_default(), None);
    }
    if let Some(id) = saved_id {
        if !is_blank(id) {
            if let Some(i) = find_input_by_id(devices, id) {
                return Some(devices[i].id().duplicate());
            }
        }
    }
    if let Some(name) = saved_name {
        if !is_blank(name) {
            if let Some(i) = find_input_by_name(devices, name) {
                return Some(devices[i].id().duplicate());
            }
        }
    }
    match find_default_input(devices) {
        Some(i) => Some(devices[i].id().duplicate()),
        None => if devices.len() > 0 {
            Some(devices[0].id().duplicate())
        } else {
            None
        },
    }
}

/// Restores the input device from saved settings.
pub fn resolve_input_device_from_settings(
    saved_id: Option<&str>,
    saved_name: Option<&str>,
    devices: &[AudioInputDevice],
) -> (r: Option<DeviceId>)
    ensures
        match r {
            Some(id) => restored_input(view_opt_str(saved_id), view_opt_str(saved_name), devices@)
                == Some(id@),
            None => restored_input(view_opt_str(saved_id), view_opt_str(saved_name), devices@) is None,
        },
{
    resolve_device_id_from_settings(saved_id, saved_name, devices)
}

/// Holds of the VB-CABLE playback endpoints.
pub open spec fn output_is_vb_cable() -> spec_fn(AudioOutputDevice) -> bool {
    |d: AudioOutputDevice| is_vb_cable_render_name(d.spec_name())
}

/// The output is always the first VB-CABLE playback endpoint, whatever was saved.
pub open spec fn restored_output(devices: Seq<AudioOutputDevice>) -> Option<Seq<char>> {
    match first_index(devices, output_is_vb_cable()) {
        Some(i) => Some(devices[i].spec_id()),
        None => None,
    }
}

pub(crate) fn find_vb_cable_output(devices: &[AudioOutputDevice]) -> (r: Option<usize>)
    ensures
        match r {
            Some(i) => i < devices@.len() && first_index(devices@, output_is_vb_cable()) == Some(i as int),
            None => first_index(devices@, output_is_vb_cable()) is None,
        },
{
    let ghost p = output_is_vb_cable();
    let mut i: usize = 0;
    while i < devices.len()
        invariant
            i <= devices@.len(),
            p == output_is_vb_cable(),
            forall|j: int| 0 <= j < i ==> !p(#[trigger] devices@[j]),
        decreases devices.len() - i,
    {
        if is_vb_cable_render_device_name(devices[i].name()) {
            proof {
                lemma_first_index(devices@, p, Some(i as int));
            }
            return Some(i);
        }
        i += 1;
    }
    proof {
        lemma_first_index(devices@, p, None);
    }
    None
}

/// Restores the output device: the first VB-CABLE endpoint (saved values are not used).
pub fn resolve_output_device_from_settings(
    saved_id: Option<&str>,
    saved_name: Option<&str>,
    devices: &[AudioOutputDevice],
) -> (r: Option<DeviceId>)
    ensures
        match r {
            Some(id) => restored_output(devices@) == Some(id@),
            None => restored_output(devices@) is None,
        },
{
    match find_vb_cable_output(devices) {
        Some(i) => Some(devices[i].id().duplicate()),
        None => None,
    }
}

/// When nothing decides otherwise, the input chosen is the first device marked default, and
/// the first listed device only when none is marked default; with no device, nothing.
pub proof fn lemma_fallback_input_prefers_default(devices: Seq<AudioInputDevice>)
    ensures
        forall|i: int|
            0 <= i < devices.len() && #[trigger] devices[i].spec_is_default() && (forall|j: int|
                0 <= j < i ==> !devices[j].spec_is_default()) ==> fallback_input(devices) == Some(
                devices[i].spec_id(),
            ),
        (forall|j: int| 0 <= j < devices.len() ==> !devices[j].spec_is_default()) ==> fallback_input(devices)
            == (if devices.len() > 0 {
            Some(devices[0].spec_id())
        } else {
            None
        }),
{
    assert forall|i: int|
        0 <= i < devices.len() && #[trigger] devices[i].spec_is_default() && (forall|j: int|
            0 <= j < i ==> !devices[j].spec_is_default()) implies fallback_input(devices) == Some(
        devices[i].spec_id(),
    ) by {
        let p = input_is_default();
        assert forall|j: int| 0 <= j < i implies !p(#[trigger] devices[j]) by {}
        lemma_first_index(devices, p, Some(i));
    }
    if forall|j: int| 0 <= j < devices.len() ==> !devices[j].spec_is_default() {
        let p = input_is_default();
        assert forall|j: int| 0 <= j < devices.len() implies !p(#[trigger] devices[j]) by {}
        lemma_first_index(devices, p, None);
    }
}

/// Restoring from settings whose saved identifier and saved name both match no listed device
/// (or were not saved) picks the first device marked default, and the first listed device
/// only when none is marked default.
pub proof fn lemma_unmatched_settings_restore_default_input(
    saved_id: Option<Seq<char>>,
    saved_name: Option<Seq<char>>,
    devices: Seq<AudioInputDevice>,
)
    requires
        saved_id matches Some(id) ==> forall|j: int| 0 <= j < devices.len() ==> devices[j].spec_id() != id,
        saved_name matches Some(n) ==> forall|j: int| 0 <= j < devices.len() ==> devices[j].spec_name() != n,
    ensures
        forall|i: int|
            0 <= i < devices.len() && #[trigger] devices[i].spec_is_default() && (forall|j: int|
                0 <= j < i ==> !devices[j].spec_is_default()) ==> restored_input(saved_id, saved_name, devices)
                == Some(devices[i].spec_id()),
        (forall|j: int| 0 <= j < devices.len() ==> !devices[j].spec_is_default()) ==> restored_input(
            saved_id,
            saved_name,
            devices,
        ) == (if devices.len() > 0 {
            Some(devices[0].spec_id())
        } else {
            None
        }),
{
    match saved_id {
        Some(id) => {
            let p = AudioInputDevice::with_id_pred(id);
            assert forall|j: int| 0 <= j < devices.len() implies !p(#[trigger] devices[j]) by {}
            lemma_first_index(devices, p, None);
        },
        None => {},
    }
    match saved_name {
        Some(n) => {
            let p = input_named(n);
            assert forall|j: int| 0 <= j < devices.len() implies !p(#[trigger] devices[j]) by {}
            lemma_first_index(devices, p, None);
        },
        None => {},
    }
    lemma_fallback_input_prefers_default(devices);
}

/// A saved identifier that is not blank and names a listed device is restored as it is,
/// whatever name was saved with it.
pub proof fn lemma_listed_saved_id_is_restored(
    id: Seq<char>,
    saved_name: Option<Seq<char>>,
    devices: Seq<AudioInputDevice>,
    k: int,
)
    requires
        trim(id).len() > 0,
        0 <= k < devices.len(),
        devices[k].spec_id() == id,
    ensures
        restored_input(Some(id), saved_name, devices) == Some(id),
{
    let p = AudioInputDevice::with_id_pred(id);
    lemma_first_index(devices, p, None);
    if first_index(devices, p) is None {
        assert(p(devices[k]));
    }
}

} // verus!

