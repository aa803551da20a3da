//! The desktop application's state apart from its window, and what each event does to it:
//! device lists arriving, saved settings being applied, the user toggling an effect, the
//! pipeline being started, the tray menu being used. Everything that touches the system
//! (enumerating devices, opening streams, writing files, spawning tasks) is the caller's
//! part: it hands the outcome in, and the state says what to do next.
use vstd::prelude::*;
use vstd::string::*;
use crate::app_state::{
    default_app_tab, fallback_input, find_default_input, lemma_fallback_input_prefers_default, find_input_by_id, find_vb_cable_output,
    input_is_default, is_vb_cable_render_device_name, is_vb_cable_render_name, output_is_vb_cable,
    resolve_input_device_from_settings, resolve_output_device_from_settings, restored_input,
    restored_output, view_opt_str, AppTab, SuppressorModeSelection,
};
use crate::device::{first_index, lemma_first_index, AudioInputDevice, AudioOutputDevice, DeviceId};
use crate::error::{error_text, ClearLineError};
use crate::labels::{
    deepfilter_startup_warning, device_label, mode_label, mode_text, DeepFilterModelUiStatus,
};
use crate::pipeline::{is_busy, AudioOutputTarget, AudioPipeline, AudioPipelineConfig, PipelineRuntimeInfo, PipelineState};
use crate::settings::{
    strength_from_setting, strength_setting, suppression_strength_from_setting,
    suppression_strength_to_setting, suppressor_mode_from_setting, suppressor_mode_to_setting,
    PersistedSettings, MODE_HIGH_QUALITY, OUTPUT_TARGET_VB_CABLE, SETTINGS_VERSION,
};
use crate::suppressor::{DeepFilterNetModelBundle, SuppressionStrength, SuppressorMode};
use crate::text::{concat2, decimal, push_decimal, str_eq};
use crate::tray::{TrayEvent, TrayMenuState};

verus! {

broadcast use vstd::string::group_string_axioms;

pub const INITIALIZING_STATUS: &'static str = "正在初始化设备列表";

/// The application's state.
pub struct ClearLineAppState {
    pub devices: Vec<AudioInputDevice>,
    pub output_devices: Vec<AudioOutputDevice>,
    pub selected_device_id: Option<DeviceId>,
    pub selected_output_device_id: Option<DeviceId>,
    pub suppressor_mode: SuppressorModeSelection,
    pub noise_suppression_enabled: bool,
    pub suppression_strength: SuppressionStrength,
    pub wind_noise_reduction_enabled: bool,
    pub echo_cancellation_enabled: bool,
    pub start_on_login_enabled: bool,
    pub selected_tab: AppTab,
    pub pipeline: AudioPipeline,
    pub status_message: String,
    pub pending_settings: Option<PersistedSettings>,
    pub settings_loaded: bool,
    pub pending_start_on_login_enabled: Option<bool>,
    pub exit_requested: bool,
}

/// How reading the saved settings went at start-up.
pub enum SettingsLoad {
    /// The settings directory could not be found or made; the text says why.
    StoreUnavailable(String),
    /// The settings file exists but could not be read; the text says why.
    LoadFailed(String),
    /// The file was read (`None`: there was none yet).
    Loaded(Option<PersistedSettings>),
}

pub open spec fn opt_id(o: Option<DeviceId>) -> Option<Seq<char>> {
    match o {
        Some(d) => Some(d@),
        None => None,
    }
}

pub open spec fn opt_text(o: Option<String>) -> Option<Seq<char>> {
    match o {
        Some(s) => Some(s@),
        None => None,
    }
}

/// The selection kept by `ensure_selected_input_device`: the current one while it is listed,
/// else the default device, else the first.
pub open spec fn ensured_input(selected: Option<Seq<char>>, devices: Seq<AudioInputDevice>) -> Option<Seq<char>> {
    match selected {
        Some(id) => if first_index(devices, AudioInputDevice::with_id_pred(id)) is Some {
            Some(id)
        } else {
            fallback_input(devices)
        },
        None => fallback_input(devices),
    }
}

/// The selection kept by `ensure_selected_output_device`: the current one while the first
/// endpoint listed under it is a VB-CABLE endpoint, else the first VB-CABLE endpoint.
pub open spec fn ensured_output(selected: Option<Seq<char>>, outputs: Seq<AudioOutputDevice>) -> Option<Seq<char>> {
    match selected {
        Some(id) => match first_index(outputs, AudioOutputDevice::with_id_pred(id)) {
            Some(i) => if is_vb_cable_render_name(outputs[i].spec_name()) {
                Some(id)
            } else {
                restored_output(outputs)
            },
            None => restored_output(outputs),
        },
        None => restored_output(outputs),
    }
}

/// The output identifier is listed, and the first endpoint listed under it is a VB-CABLE
/// endpoint.
pub open spec fn is_listed_vb_cable(id: Seq<char>, outputs: Seq<AudioOutputDevice>) -> bool {
    match first_index(outputs, AudioOutputDevice::with_id_pred(id)) {
        Some(i) => is_vb_cable_render_name(outputs[i].spec_name()),
        None => false,
    }
}

/// The status line after a device refresh: a hint when nothing was found, the count while
/// the initial message still shows, otherwise unchanged.
pub open spec fn refreshed_status(old_status: Seq<char>, count: nat) -> Seq<char> {
    if count == 0 {
        "未找到输入设备。请检查 Windows 麦克风权限和录音设备。"@
    } else if old_status == INITIALIZING_STATUS@ {
        "已找到 "@ + decimal(count) + " 个输入设备"@
    } else {
        old_status
    }
}

pub fn find_output_by_id(devices: &[AudioOutputDevice], id: &str) -> (r: Option<usize>)
    ensures
        match r {
            Some(i) => i < devices@.len() && first_index(devices@, AudioOutputDevice::with_id_pred(id@))
                == Some(i as int),
            None => first_index(devices@, AudioOutputDevice::with_id_pred(id@)) is None,
        },
{
    let ghost p = AudioOutputDevice::with_id_pred(id@);
    let mut i: usize = 0;
    while i < devices.len()
        invariant
            i <= devices@.len(),
            p == AudioOutputDevice::with_id_pred(id@),
            forall|j: int| 0 <= j < i ==> !p(#[trigger] devices@[j]),
        decreases devices.len() - i,
    {
        if str_eq(devices[i].id().as_str(), id) {
            proof {
                lemma_first_index(devices@, p, Some(i as int));
            }
            return Some(i);
        }
        i += 1;
    }
    proof {
        lemma_first_index(devices@, p, None);
    }
    None
}

fn fallback_input_id(devices: &[AudioInputDevice]) -> (r: Option<DeviceId>)
    ensures
        opt_id(r) == fallback_input(devices@),
{
    match find_default_input(devices) {
        Some(i) => Some(devices[i].id().duplicate()),
        None => if devices.len() > 0 {
            Some(devices[0].id().duplicate())
        } else {
            None
        },
    }
}

fn first_vb_cable_id(outputs: &[AudioOutputDevice]) -> (r: Option<DeviceId>)
    ensures
        opt_id(r) == restored_output(outputs@),
{
    match find_vb_cable_output(outputs) {
        Some(i) => Some(outputs[i].id().duplicate()),
        None => None,
    }
}

impl ClearLineAppState {
    /// A fresh state: no devices, high quality at the default strength with noise suppression
    /// and echo cancellation on, wind reduction and start-on-login off, stopped pipeline.
    pub fn new_with_settings(
        pending_settings: Option<PersistedSettings>,
        status_message: String,
        settings_loaded: bool,
    ) -> (r: Self)
        ensures
            r.devices@.len() == 0,
            r.output_devices@.len() == 0,
            r.selected_device_id is None,
            r.selected_output_device_id is None,
            r.suppressor_mode == SuppressorModeSelection(SuppressorMode::HighQuality),
            r.noise_suppression_enabled,
            r.suppression_strength == SuppressionStrength::Balanced,
            !r.wind_noise_reduction_enabled,
            r.echo_cancellation_enabled,
            !r.start_on_login_enabled,
            r.selected_tab == AppTab::Device,
            r.pipeline.state == PipelineState::Stopped,
            r.pipeline.config is None,
            r.pipeline.runtime_info is None,
            r.status_message == status_message,
            r.pending_settings == pending_settings,
            r.settings_loaded == settings_loaded,
            r.pending_start_on_login_enabled is None,
            !r.exit_requested,
    {
        ClearLineAppState {
            devices: Vec::new(),
            output_devices: Vec::new(),
            selected_device_id: None,
            selected_output_device_id: None,
            suppressor_mode: SuppressorModeSelection(crate::app_state::default_suppressor_mode()),
            noise_suppression_enabled: true,
            suppression_strength: SuppressionStrength::Balanced,
            wind_noise_reduction_enabled: false,
            echo_cancellation_enabled: true,
            start_on_login_enabled: false,
            selected_tab: default_app_tab(),
            pipeline: AudioPipeline::new(),
            status_message,
            pending_settings,
            settings_loaded,
            pending_start_on_login_enabled: None,
            exit_requested: false,
        }
    }

    /// A fresh state that has loaded no settings and says it is listing devices.
    pub fn new_without_loading_settings() -> (r: Self)
        ensures
            r.devices@.len() == 0,
            r.output_devices@.len() == 0,
            r.selected_device_id is None,
            r.selected_output_device_id is None,
            r.suppressor_mode == SuppressorModeSelection(SuppressorMode::HighQuality),
            r.noise_suppression_enabled,
            r.suppression_strength == SuppressionStrength::Balanced,
            !r.wind_noise_reduction_enabled,
            r.echo_cancellation_enabled,
            !r.start_on_login_enabled,
            r.selected_tab == AppTab::Device,
            r.pipeline.state == PipelineState::Stopped,
            r.status_message@ == INITIALIZING_STATUS@,
            r.pending_settings is None,
            !r.settings_loaded,
            r.pending_start_on_login_enabled is None,
            !r.exit_requested,
    {
        Self::new_with_settings(None, INITIALIZING_STATUS.to_string(), false)
    }

    /// The state at start-up, from how reading the saved settings went: loaded settings wait
    /// to be applied once the devices are listed.
    pub fn from_settings_load(load: SettingsLoad) -> (r: Self)
        ensures
            r.devices@.len() == 0,
            r.selected_device_id is None,
            r.pipeline.state == PipelineState::Stopped,
            match load {
                SettingsLoad::StoreUnavailable(e) => r.pending_settings is None && !r.settings_loaded
                    && r.status_message@ == "设置目录不可用，已使用默认设置："@ + e@,
                SettingsLoad::LoadFailed(e) => r.pending_settings is None && !r.settings_loaded
                    && r.status_message@ == "设置文件无效，已使用默认设置："@ + e@,
                SettingsLoad::Loaded(s) => r.pending_settings == s && r.settings_loaded == (s is Some)
                    && r.status_message@ == if s is Some {
                    "已加载本地设置"@
                } else {
                    INITIALIZING_STATUS@
                },
            },
    {
        match load {
            SettingsLoad::StoreUnavailable(e) => Self::new_with_settings(
                None,
                concat2("设置目录不可用，已使用默认设置：", e.as_str()),
                false,
            ),
            SettingsLoad::LoadFailed(e) => Self::new_with_settings(
                None,
                concat2("设置文件无效，已使用默认设置：", e.as_str()),
                false,
            ),
            SettingsLoad::Loaded(settings) => {
                let loaded = settings.is_some();
                let status = if loaded {
                    "已加载本地设置".to_string()
                } else {
                    INITIALIZING_STATUS.to_string()
                };
                Self::new_with_settings(settings, status, loaded)
            },
        }
    }

    /// Keeps the input selection while it is listed; otherwise selects the default device,
    /// else the first, else nothing.
    pub fn ensure_selected_input_device(&mut self)
        ensures
            opt_id(final(self).selected_device_id) == ensured_input(
                opt_id(old(self).selected_device_id),
                old(self).devices@,
            ),
            *final(self) == (ClearLineAppState {
                selected_device_id: final(self).selected_device_id,
                ..*old(self)
            }),
    {
        let current_is_valid = match &self.selected_device_id {
            Some(selected) => find_input_by_id(self.devices.as_slice(), selected.as_str()).is_some(),
            None => false,
        };
        if current_is_valid {
            return;
        }
        self.selected_device_id = fallback_input_id(self.devices.as_slice());
    }

    /// Keeps the output selection while it names a VB-CABLE endpoint; otherwise selects the
    /// first VB-CABLE endpoint, or nothing.
    pub fn ensure_selected_output_device(&mut self)
        ensures
            opt_id(final(self).selected_output_device_id) == ensured_output(
                opt_id(old(self).selected_output_device_id),
                old(self).output_devices@,
            ),
            *final(self) == (ClearLineAppState {
                selected_output_device_id: final(self).selected_output_device_id,
                ..*old(self)
            }),
    {
        let current_is_valid_vb_cable = match &self.selected_output_device_id {
            Some(selected) => match find_output_by_id(self.output_devices.as_slice(), selected.as_str()) {
                Some(i) => is_vb_cable_render_device_name(self.output_devices[i].name()),
                None => false,
            },
            None => false,
        };
        if current_is_valid_vb_cable {
            return;
        }
        self.selected_output_device_id = first_vb_cable_id(self.output_devices.as_slice());
    }

    /// The selected input endpoint: the first listed under the selected identifier.
    pub fn selected_device(&self) -> (r: Option<&AudioInputDevice>)
        ensures
            match opt_id(self.selected_device_id) {
                None => r is None,
                Some(id) => match first_index(self.devices@, AudioInputDevice::with_id_pred(id)) {
                    Some(i) => r == Some(&self.devices@[i]),
                    None => r is None,
                },
            },
    {
        match &self.selected_device_id {
            None => None,
            Some(selected) => match find_input_by_id(self.devices.as_slice(), selected.as_str()) {
                Some(i) => Some(&self.devices[i]),
                None => None,
            },
        }
    }

    /// The selected output endpoint: the first listed under the selected identifier.
    pub fn selected_output_device(&self) -> (r: Option<&AudioOutputDevice>)
        ensures
            match opt_id(self.selected_output_device_id) {
                None => r is None,
                Some(id) => match first_index(self.output_devices@, AudioOutputDevice::with_id_pred(id)) {
                    Some(i) => r == Some(&self.output_devices@[i]),
                    None => r is None,
                },
            },
    {
        match &self.selected_output_device_id {
            None => None,
            Some(selected) => match find_output_by_id(self.output_devices.as_slice(), selected.as_str()) {
                Some(i) => Some(&self.output_devices[i]),
                None => None,
            },
        }
    }

    /// The label of the microphone button: the selected device's label, or a prompt.
    pub fn selected_device_label(&self) -> (r: String)
        ensures
            match opt_id(self.selected_device_id) {
                Some(id) if first_index(self.devices@, AudioInputDevice::with_id_pred(id)) is Some => {
                    let d = self.devices@[first_index(self.devices@, AudioInputDevice::with_id_pred(id))->0];
                    r@ == if d.spec_is_default() {
                        d.spec_name() + "（默认）"@
                    } else {
                        d.spec_name()
                    }
                },
                _ => r@ == "选择麦克风"@,
            },
    {
        match self.selected_device() {
            Some(device) => device_label(device),
            None => "选择麦克风".to_string(),
        }
    }
}

/// The status line after saved settings were applied: a note when a saved device was
/// replaced, else a note that settings were loaded (when they were), else unchanged.
pub open spec fn settings_status(old_status: Seq<char>, settings_loaded: bool, fell_back: bool) -> Seq<char> {
    if fell_back {
        "已加载本地设置，部分设备不可用，已使用可用设备"@
    } else if settings_loaded {
        "已加载本地设置"@
    } else {
        old_status
    }
}

/// Whether a saved device identifier is not the one that ended up selected.
pub open spec fn fell_back(saved: Option<String>, selected: Option<DeviceId>) -> bool {
    saved matches Some(v) && opt_id(selected) != Some(v@)
}

/// What `apply_pending_settings_after_refresh` does with saved settings `s`: every choice is
/// taken from them (the mode always as high quality, echo cancellation switched on for
/// settings older than the current layout), the input restored by identifier, name or
/// default, the output set to the first VB-CABLE endpoint.
pub open spec fn settings_applied(
    old: ClearLineAppState,
    new: ClearLineAppState,
    s: PersistedSettings,
) -> bool {
    let input_fell_back = s.input_device_id matches Some(saved) && opt_id(new.selected_device_id)
        != Some(saved@);
    let output_fell_back = s.output_device_id matches Some(saved) && opt_id(new.selected_output_device_id)
        != Some(saved@);
    &&& new.pending_settings is None
    &&& new.suppressor_mode == SuppressorModeSelection(SuppressorMode::HighQuality)
    &&& new.suppression_strength == strength_from_setting(s.suppression_strength@)
    &&& new.wind_noise_reduction_enabled == s.wind_noise_reduction_enabled
    &&& new.noise_suppression_enabled == s.noise_suppression_enabled
    &&& new.start_on_login_enabled == s.start_on_login_enabled
    &&& new.echo_cancellation_enabled == (s.version < SETTINGS_VERSION || s.echo_cancellation_enabled)
    &&& opt_id(new.selected_device_id) == restored_input(
        opt_text(s.input_device_id),
        opt_text(s.input_device_name),
        old.devices@,
    )
    &&& opt_id(new.selected_output_device_id) == restored_output(old.output_devices@)
    &&& new.status_message@ == settings_status(old.status_message@, old.settings_loaded, input_fell_back || output_fell_back)
    &&& new == ClearLineAppState {
        pending_settings: new.pending_settings,
        suppressor_mode: new.suppressor_mode,
        suppression_strength: new.suppression_strength,
        wind_noise_reduction_enabled: new.wind_noise_reduction_enabled,
        noise_suppression_enabled: new.noise_suppression_enabled,
        start_on_login_enabled: new.start_on_login_enabled,
        echo_cancellation_enabled: new.echo_cancellation_enabled,
        selected_device_id: new.selected_device_id,
        selected_output_device_id: new.selected_output_device_id,
        status_message: new.status_message,
        ..old
    }
}

/// The saved settings `r` record the state `st`: its selections with the names they are
/// listed under, its mode and strength as stored names, its switches, the VB-CABLE target and
/// the current layout version.
pub open spec fn snapshot_of(st: ClearLineAppState, r: PersistedSettings) -> bool {
    let input = match opt_id(st.selected_device_id) {
        Some(id) => first_index(st.devices@, AudioInputDevice::with_id_pred(id)),
        None => None,
    };
    let output = match opt_id(st.selected_output_device_id) {
        Some(id) => first_index(st.output_devices@, AudioOutputDevice::with_id_pred(id)),
        None => None,
    };
    &&& r.version == SETTINGS_VERSION
    &&& opt_text(r.input_device_id) == opt_id(st.selected_device_id)
    &&& opt_text(r.input_device_name) == match input {
        Some(i) => Some(st.devices@[i].spec_name()),
        None => None,
    }
    &&& opt_text(r.output_device_id) == opt_id(st.selected_output_device_id)
    &&& opt_text(r.output_device_name) == match output {
        Some(i) => Some(st.output_devices@[i].spec_name()),
        None => None,
    }
    &&& r.output_target@ == OUTPUT_TARGET_VB_CABLE@
    &&& r.suppressor_mode@ == MODE_HIGH_QUALITY@
    &&& r.suppression_strength@ == strength_setting(st.suppression_strength)
    &&& r.wind_noise_reduction_enabled == st.wind_noise_reduction_enabled
    &&& r.echo_cancellation_enabled == st.echo_cancellation_enabled
    &&& r.noise_suppression_enabled == st.noise_suppression_enabled
    &&& r.microphone_boost_enabled
    &&& r.start_on_login_enabled == st.start_on_login_enabled
    &&& r.deepfilter_model_dir@ == Seq::<char>::empty()
}

fn id_text(id: &Option<DeviceId>) -> (r: Option<String>)
    ensures
        opt_text(r) == opt_id(*id),
{
    match id {
        Some(d) => Some(d.as_str().to_string()),
        None => None,
    }
}

fn opt_as_str(s: &Option<String>) -> (r: Option<&str>)
    ensures
        view_opt_str(r) == opt_text(*s),
{
    match s {
        Some(t) => Some(t.as_str()),
        None => None,
    }
}

fn differs_from_saved(selected: &Option<DeviceId>, saved: &Option<String>) -> (r: bool)
    ensures
        r == (saved matches Some(v) && opt_id(*selected) != Some(v@)),
{
    match saved {
        None => false,
        Some(v) => match selected {
            Some(id) => !str_eq(id.as_str(), v.as_str()),
            None => true,
        },
    }
}

impl ClearLineAppState {
    /// Applies the saved settings that wait for the device lists, once.
    pub fn apply_pending_settings_after_refresh(&mut self)
        ensures
            match old(self).pending_settings {
                None => *final(self) == *old(self),
                Some(s) => settings_applied(*old(self), *final(self), s),
            },
    {
        let settings = match self.pending_settings.take() {
            None => {
                return;
            },
            Some(s) => s,
        };
        let is_legacy_settings = settings.version < SETTINGS_VERSION;
        self.suppressor_mode = SuppressorModeSelection(
            suppressor_mode_from_setting(settings.suppressor_mode.as_str()),
        );
        self.suppression_strength = suppression_strength_from_setting(
            settings.suppression_strength.as_str(),
        );
        self.wind_noise_reduction_enabled = settings.wind_noise_reduction_enabled;
        self.noise_suppression_enabled = settings.noise_suppression_enabled;
        self.start_on_login_enabled = settings.start_on_login_enabled;
        self.echo_cancellation_enabled = if is_legacy_settings {
            true
        } else {
            settings.echo_cancellation_enabled
        };
        self.selected_device_id = resolve_input_device_from_settings(
            opt_as_str(&settings.input_device_id),
            opt_as_str(&settings.input_device_name),
            self.devices.as_slice(),
        );
        self.selected_output_device_id = resolve_output_device_from_settings(
            opt_as_str(&settings.output_device_id),
            opt_as_str(&settings.output_device_name),
            self.output_devices.as_slice(),
        );
        let input_fell_back = differs_from_saved(&self.selected_device_id, &settings.input_device_id);
        let output_fell_back = differs_from_saved(
            &self.selected_output_device_id,
            &settings.output_device_id,
        );
        if input_fell_back || output_fell_back {
            self.status_message = "已加载本地设置，部分设备不可用，已使用可用设备".to_string();
        } else if self.settings_loaded {
            self.status_message = "已加载本地设置".to_string();
        }
    }

    /// The settings to save for the current state.
    pub fn persisted_settings_snapshot(&self) -> (r: PersistedSettings)
        ensures
            snapshot_of(*self, r),
    {
        let input_name = match self.selected_device() {
            Some(device) => Some(device.name().to_string()),
            None => None,
        };
        let output_name = match self.selected_output_device() {
            Some(device) => Some(device.name().to_string()),
            None => None,
        };
        PersistedSettings {
            version: SETTINGS_VERSION,
            input_device_id: id_text(&self.selected_device_id),
            input_device_name: input_name,
            output_device_id: id_text(&self.selected_output_device_id),
            output_device_name: output_name,
            output_target: OUTPUT_TARGET_VB_CABLE.to_string(),
            suppressor_mode: suppressor_mode_to_setting(self.suppressor_mode.value()).to_string(),
            suppression_strength: suppression_strength_to_setting(self.suppression_strength).to_string(),
            wind_noise_reduction_enabled: self.wind_noise_reduction_enabled,
            echo_cancellation_enabled: self.echo_cancellation_enabled,
            noise_suppression_enabled: self.noise_suppression_enabled,
            microphone_boost_enabled: true,
            start_on_login_enabled: self.start_on_login_enabled,
            deepfilter_model_dir: String::new(),
        }
    }

    /// Takes in freshly listed devices: keeps or replaces the selections, applies waiting
    /// settings and updates the status line. A failed input listing clears the inputs,
    /// records the failure on the pipeline and in the status line. `outputs` is `None` when
    /// the output listing failed, which leaves the outputs as they were.
    pub fn apply_device_refresh(
        &mut self,
        inputs: Result<Vec<AudioInputDevice>, String>,
        outputs: Option<Vec<AudioOutputDevice>>,
    )
        ensures
            match inputs {
                Err(e) => {
                    &&& final(self).devices@.len() == 0
                    &&& final(self).selected_device_id is None
                    &&& final(self).pipeline.state == PipelineState::Error(e)
                    &&& final(self).pipeline.config is None
                    &&& final(self).status_message@ == "输入设备枚举失败："@ + e@
                },
                Ok(list) => {
                    &&& final(self).devices@ == list@
                    &&& final(self).output_devices@ == match outputs {
                        Some(o) => o@,
                        None => old(self).output_devices@,
                    }
                    &&& final(self).pipeline == old(self).pipeline
                    &&& final(self).pending_settings is None
                    &&& (old(self).pending_settings is None ==> {
                        &&& opt_id(final(self).selected_device_id) == ensured_input(
                            opt_id(old(self).selected_device_id),
                            list@,
                        )
                        &&& opt_id(final(self).selected_output_device_id) == match outputs {
                            Some(o) => ensured_output(opt_id(old(self).selected_output_device_id), o@),
                            None => opt_id(old(self).selected_output_device_id),
                        }
                    })
                    &&& (old(self).pending_settings matches Some(s) ==> opt_id(
                        final(self).selected_device_id,
                    ) == restored_input(opt_text(s.input_device_id), opt_text(s.input_device_name), list@))
                    &&& (old(self).pending_settings matches Some(s) ==> opt_id(
                        final(self).selected_output_device_id,
                    ) == restored_output(final(self).output_devices@))
                    &&& final(self).status_message@ == refreshed_status(
                        match old(self).pending_settings {
                            None => old(self).status_message@,
                            Some(s) => settings_status(
                                old(self).status_message@,
                                old(self).settings_loaded,
                                fell_back(s.input_device_id, final(self).selected_device_id)
                                    || fell_back(s.output_device_id, final(self).selected_output_device_id),
                            ),
                        },
                        list@.len(),
                    )
                },
            },
    {
        match inputs {
            Err(error) => {
                self.devices = Vec::new();
                self.selected_device_id = None;
                self.status_message = concat2("输入设备枚举失败：", error.as_str());
                self.pipeline.fail(error);
            },
            Ok(list) => {
                self.devices = list;
                self.ensure_selected_input_device();
                match outputs {
                    Some(o) => {
                        self.output_devices = o;
                        self.ensure_selected_output_device();
                    },
                    None => {},
                }
                self.apply_pending_settings_after_refresh();
                if self.devices.len() == 0 || str_eq(self.status_message.as_str(), INITIALIZING_STATUS) {
                    if self.devices.len() == 0 {
                        self.status_message = "未找到输入设备。请检查 Windows 麦克风权限和录音设备。".to_string();
                    } else {
                        let mut m = String::from_str("已找到 ");
                        push_decimal(&mut m, self.devices.len() as u64);
                        m.append(" 个输入设备");
                        self.status_message = m;
                    }
                }
            },
        }
    }
}

/// A pipeline start that the state has decided on: what to run, and how to announce it once
/// the streams are open.
pub struct PlannedStart {
    pub config: AudioPipelineConfig,
    pub mode_label: String,
    pub output_label: String,
}

/// The text that stands for the running mode in the status line.
pub open spec fn start_mode_text(mode: SuppressorMode, uses_model: bool) -> Seq<char> {
    if uses_model {
        "高质量降噪（DeepFilterNet 模型）"@
    } else if mode == SuppressorMode::HighQuality {
        "高质量降噪"@
    } else {
        mode_text(mode)
    }
}

pub open spec fn effective_mode(st: ClearLineAppState) -> SuppressorMode {
    if st.noise_suppression_enabled {
        st.suppressor_mode.0
    } else {
        SuppressorMode::Bypass
    }
}

/// The message when the high-quality model cannot be used.
pub open spec fn model_unavailable_text(status: DeepFilterModelUiStatus) -> Seq<char> {
    match status {
        DeepFilterModelUiStatus::NotConfigured => "DeepFilterNet 模型不可用：未找到随程序打包的模型"@,
        DeepFilterModelUiStatus::MissingAsset(f) => "DeepFilterNet 模型不可用：缺少 "@ + f@,
        DeepFilterModelUiStatus::Invalid(m) => "DeepFilterNet 模型不可用："@ + m@,
        DeepFilterModelUiStatus::Valid => "DeepFilterNet 模型不可用，无法启动高质量降噪"@,
    }
}

pub open spec fn vb_cable_missing_text() -> Seq<char> {
    "未找到 VB-CABLE 输出端点（CABLE Input 或 CABLE In 16 Ch）。请先安装 VB-CABLE，或重新运行 ClearLine 安装器。"@
}

/// Only the pipeline and the status line changed.
pub open spec fn only_pipeline_and_status_changed(old: ClearLineAppState, new: ClearLineAppState) -> bool {
    new == ClearLineAppState { pipeline: new.pipeline, status_message: new.status_message, ..old }
}

/// The pipeline stopped on `message` and nothing runs.
pub open spec fn failed_with(p: AudioPipeline, message: Seq<char>) -> bool {
    &&& p.state matches PipelineState::Error(m) && m@ == message
    &&& p.config is None
    &&& p.runtime_info is None
}

/// What `plan_pipeline_start` decides: which failure, or the start it plans.
pub open spec fn start_planned(
    old: ClearLineAppState,
    new: ClearLineAppState,
    model_status: DeepFilterModelUiStatus,
    bundle: Option<DeepFilterNetModelBundle>,
    r: Option<PlannedStart>,
) -> bool {
    let mode = effective_mode(old);
    let out_index = match opt_id(old.selected_output_device_id) {
        Some(id) => first_index(old.output_devices@, AudioOutputDevice::with_id_pred(id)),
        None => None,
    };
    let output_ok = out_index matches Some(i) && is_vb_cable_render_name(old.output_devices@[i].spec_name());
    &&& only_pipeline_and_status_changed(old, new)
    &&& if old.selected_device_id is None {
        &&& r is None
        &&& failed_with(new.pipeline, "未选择输入设备"@)
        &&& new.status_message@ == "启动前请先选择麦克风"@
    } else if !output_ok {
        &&& r is None
        &&& failed_with(new.pipeline, "未找到 VB-CABLE 输出端点"@)
        &&& new.status_message@ == vb_cable_missing_text()
    } else if mode == SuppressorMode::HighQuality && !(model_status is Valid) {
        &&& r is None
        &&& failed_with(new.pipeline, model_unavailable_text(model_status))
        &&& new.status_message@ == model_unavailable_text(model_status)
    } else if mode == SuppressorMode::HighQuality && bundle is None {
        &&& r is None
        &&& failed_with(new.pipeline, "DeepFilterNet 模型不可用，无法启动高质量降噪"@)
        &&& new.status_message@ == "DeepFilterNet 模型不可用，无法启动高质量降噪"@
    } else if is_busy(old.pipeline.state) {
        &&& r is None
        &&& failed_with(new.pipeline, error_text(ClearLineError::PipelineAlreadyRunning))
        &&& new.status_message@ == "启动失败："@ + error_text(ClearLineError::PipelineAlreadyRunning)
    } else {
        &&& r matches Some(plan)
        &&& plan.config.input_device_id@ == old.selected_device_id->0@
        &&& plan.config.output_target == AudioOutputTarget::AudioDevice(plan.config.output_target->AudioDevice_0)
        &&& plan.config.output_target->AudioDevice_0@ == old.selected_output_device_id->0@
        &&& plan.config.suppressor_mode == mode
        &&& plan.config.suppression_strength == old.suppression_strength
        &&& plan.config.wind_noise_reduction_enabled == (old.noise_suppression_enabled && old.wind_noise_reduction_enabled)
        &&& plan.config.echo_cancellation_enabled == (old.noise_suppression_enabled && old.echo_cancellation_enabled)
        &&& plan.config.deepfilternet_model_bundle == if mode == SuppressorMode::HighQuality {
            bundle
        } else {
            None
        }
        &&& plan.mode_label@ == start_mode_text(mode, mode == SuppressorMode::HighQuality)
        &&& plan.output_label@ == old.output_devices@[out_index->0].spec_name()
        &&& new.pipeline.state == PipelineState::Starting
        &&& new.pipeline.config == old.pipeline.config
        &&& new.pipeline.runtime_info == old.pipeline.runtime_info
        &&& new.status_message == old.status_message
    }
}

impl ClearLineAppState {
    /// The mode the pipeline runs: the chosen one, or none while noise suppression is off.
    pub fn effective_suppressor_mode(&self) -> (r: SuppressorMode)
        ensures
            r == effective_mode(*self),
    {
        if self.noise_suppression_enabled {
            self.suppressor_mode.value()
        } else {
            SuppressorMode::Bypass
        }
    }

    /// Wind reduction runs only while noise suppression is on.
    pub fn effective_wind_noise_reduction_enabled(&self) -> (r: bool)
        ensures
            r == (self.noise_suppression_enabled && self.wind_noise_reduction_enabled),
    {
        self.noise_suppression_enabled && self.wind_noise_reduction_enabled
    }

    /// Echo cancellation runs only while noise suppression is on.
    pub fn effective_echo_cancellation_enabled(&self) -> (r: bool)
        ensures
            r == (self.noise_suppression_enabled && self.echo_cancellation_enabled),
    {
        self.noise_suppression_enabled && self.echo_cancellation_enabled
    }

    fn fail_start(&mut self, pipeline_message: String, status: String)
        ensures
            failed_with(final(self).pipeline, pipeline_message@),
            final(self).status_message == status,
            only_pipeline_and_status_changed(*old(self), *final(self)),
    {
        self.pipeline.fail(pipeline_message);
        self.status_message = status;
    }

    /// Decides whether and how the pipeline starts: a microphone and a VB-CABLE output must be
    /// selected, and high quality needs the packaged model (`model_status`, `bundle`). On
    /// success the pipeline enters `Starting` and the caller opens the streams for the plan;
    /// otherwise the failure is recorded.
    pub fn plan_pipeline_start(
        &mut self,
        model_status: DeepFilterModelUiStatus,
        bundle: Option<DeepFilterNetModelBundle>,
    ) -> (r: Option<PlannedStart>)
        ensures
            start_planned(*old(self), *final(self), model_status, bundle, r),
            r matches Some(plan) ==> is_listed_vb_cable(
                plan.config.output_target->AudioDevice_0@,
                final(self).output_devices@,
            ),
    {
        let device_id = match &self.selected_device_id {
            None => {
                self.fail_start("未选择输入设备".to_string(), "启动前请先选择麦克风".to_string());
                return None;
            },
            Some(id) => id.duplicate(),
        };
        proof {
            match opt_id(self.selected_output_device_id) {
                Some(id) => lemma_first_index(self.output_devices@, AudioOutputDevice::with_id_pred(id), None),
                None => {},
            }
        }
        let output = match self.selected_output_device() {
            Some(device) => if is_vb_cable_render_device_name(device.name()) {
                Some((device.id().duplicate(), device.name().to_string()))
            } else {
                None
            },
            None => None,
        };
        let (output_device_id, output_label) = match output {
            None => {
                self.fail_start(
                    "未找到 VB-CABLE 输出端点".to_string(),
                    "未找到 VB-CABLE 输出端点（CABLE Input 或 CABLE In 16 Ch）。请先安装 VB-CABLE，或重新运行 ClearLine 安装器。".to_string(),
                );
                return None;
            },
            Some(pair) => pair,
        };
        let mode = self.effective_suppressor_mode();
        let mut config = AudioPipelineConfig::new(device_id, output_device_id, mode)
            .with_suppression_strength(self.suppression_strength)
            .with_wind_noise_reduction(self.effective_wind_noise_reduction_enabled())
            .with_echo_cancellation(self.effective_echo_cancellation_enabled());
        if mode == SuppressorMode::HighQuality {
            let valid = match model_status {
                DeepFilterModelUiStatus::Valid => true,
                _ => false,
            };
            if !valid {
                let message = match deepfilter_startup_warning(mode, &model_status) {
                    Some(w) => w,
                    None => "DeepFilterNet 模型不可用，无法启动高质量降噪".to_string(),
                };
                let status = message.clone();
                self.fail_start(message, status);
                return None;
            }
            match bundle {
                None => {
                    self.fail_start(
                        "DeepFilterNet 模型不可用，无法启动高质量降噪".to_string(),
                        "DeepFilterNet 模型不可用，无法启动高质量降噪".to_string(),
                    );
                    return None;
                },
                Some(b) => {
                    config = config.with_deepfilternet_model_bundle(b);
                },
            }
        }
        let uses_deepfilter_model = config.deepfilternet_model_bundle().is_some();
        let mode_text_now = if uses_deepfilter_model {
            "高质量降噪（DeepFilterNet 模型）".to_string()
        } else if mode == SuppressorMode::HighQuality {
            "高质量降噪".to_string()
        } else {
            mode_label(mode).to_string()
        };
        match self.pipeline.begin_start() {
            Err(error) => {
                let text = error.message();
                let status = concat2("启动失败：", text.as_str());
                self.fail_start(text, status);
                None
            },
            Ok(()) => Some(PlannedStart { config, mode_label: mode_text_now, output_label }),
        }
    }

    /// Finishes a planned start with what opening the streams gave: the pipeline runs and the
    /// status line names the mode and the output, or the failure is recorded.
    pub fn complete_pipeline_start(
        &mut self,
        plan: PlannedStart,
        streams: Result<Option<PipelineRuntimeInfo>, ClearLineError>,
    )
        ensures
            only_pipeline_and_status_changed(*old(self), *final(self)),
            match streams {
                Ok(info) => {
                    &&& final(self).pipeline.state == PipelineState::Running
                    &&& final(self).pipeline.config == Some(plan.config)
                    &&& final(self).pipeline.runtime_info == info
                    &&& final(self).status_message@ == "正在使用"@ + plan.mode_label@ + "输出到 "@
                        + plan.output_label@
                },
                Err(e) => {
                    &&& failed_with(final(self).pipeline, error_text(e))
                    &&& final(self).status_message@ == "启动失败："@ + error_text(e)
                },
            },
    {
        let PlannedStart { config, mode_label, output_label } = plan;
        match self.pipeline.finish_start(config, streams) {
            Ok(()) => {
                let mut m = concat2("正在使用", mode_label.as_str());
                m.append("输出到 ");
                m.append(output_label.as_str());
                self.status_message = m;
            },
            Err(error) => {
                let text = error.message();
                let status = concat2("启动失败：", text.as_str());
                self.fail_start(text, status);
            },
        }
    }

    /// Starts the pipeline when it is not running and both an input and an output are
    /// selected.
    pub fn start_pipeline_if_ready(
        &mut self,
        model_status: DeepFilterModelUiStatus,
        bundle: Option<DeepFilterNetModelBundle>,
    ) -> (r: Option<PlannedStart>)
        ensures
            (old(self).pipeline.state is Running || old(self).selected_device_id is None
                || old(self).selected_output_device_id is None) ==> (r is None && *final(self)
                == *old(self)),
            !(old(self).pipeline.state is Running || old(self).selected_device_id is None
                || old(self).selected_output_device_id is None) ==> start_planned(
                *old(self),
                *final(self),
                model_status,
                bundle,
                r,
            ),
    {
        if self.pipeline.state().is_running() {
            return None;
        }
        if self.selected_device_id.is_some() && self.selected_output_device_id.is_some() {
            return self.plan_pipeline_start(model_status, bundle);
        }
        None
    }

    /// After a change that affects the running pipeline: restarts it when it runs (the caller
    /// closes the old streams), otherwise starts it if it can.
    pub fn apply_runtime_change_if_running(
        &mut self,
        model_status: DeepFilterModelUiStatus,
        bundle: Option<DeepFilterNetModelBundle>,
    ) -> (r: Option<PlannedStart>)
        ensures
            old(self).pipeline.state is Running ==> exists|stopped: ClearLineAppState| {
                &&& stopped == ClearLineAppState { pipeline: stopped.pipeline, ..*old(self) }
                &&& stopped.pipeline.state == PipelineState::Stopped
                &&& stopped.pipeline.config is None
                &&& stopped.pipeline.runtime_info is None
                &&& start_planned(stopped, *final(self), model_status, bundle, r)
            },
            !(old(self).pipeline.state is Running) ==> {
                ||| (old(self).selected_device_id is None || old(self).selected_output_device_id is None)
                    && r is None && *final(self) == *old(self)
                ||| !(old(self).selected_device_id is None || old(self).selected_output_device_id is None)
                    && start_planned(*old(self), *final(self), model_status, bundle, r)
            },
    {
        if self.pipeline.state().is_running() {
            self.pipeline.stop();
            let ghost stopped = *self;
            let r = self.plan_pipeline_start(model_status, bundle);
            assert(start_planned(stopped, *self, model_status, bundle, r));
            r
        } else {
            self.start_pipeline_if_ready(model_status, bundle)
        }
    }

    /// Records how saving the settings went: a confirmation while the pipeline is not
    /// running, or the failure.
    pub fn record_settings_save(&mut self, result: Result<(), String>)
        ensures
            *final(self) == (ClearLineAppState { status_message: final(self).status_message, ..*old(self) }),
            match result {
                Ok(()) => final(self).status_message@ == if old(self).pipeline.state is Running {
                    old(self).status_message@
                } else {
                    "设置已保存"@
                },
                Err(e) => final(self).status_message@ == "设置保存失败："@ + e@,
            },
    {
        match result {
            Ok(()) => {
                if !self.pipeline.state().is_running() {
                    self.status_message = "设置已保存".to_string();
                }
            },
            Err(error) => {
                self.status_message = concat2("设置保存失败：", error.as_str());
            },
        }
    }

    /// Switches noise suppression; `true` when that changed something (the caller then saves
    /// the settings and applies the change to the pipeline).
    pub fn set_noise_suppression_enabled(&mut self, enabled: bool) -> (changed: bool)
        ensures
            changed == (old(self).noise_suppression_enabled != enabled),
            *final(self) == (ClearLineAppState { noise_suppression_enabled: enabled, ..*old(self) }),
    {
        if self.noise_suppression_enabled == enabled {
            return false;
        }
        self.noise_suppression_enabled = enabled;
        true
    }

    /// Switches wind reduction; `true` when that changed something.
    pub fn set_wind_noise_reduction_enabled(&mut self, enabled: bool) -> (changed: bool)
        ensures
            changed == (old(self).wind_noise_reduction_enabled != enabled),
            *final(self) == (ClearLineAppState { wind_noise_reduction_enabled: enabled, ..*old(self) }),
    {
        if self.wind_noise_reduction_enabled == enabled {
            return false;
        }
        self.wind_noise_reduction_enabled = enabled;
        true
    }

    /// Switches echo cancellation; `true` when that changed something.
    pub fn set_echo_cancellation_enabled(&mut self, enabled: bool) -> (changed: bool)
        ensures
            changed == (old(self).echo_cancellation_enabled != enabled),
            *final(self) == (ClearLineAppState { echo_cancellation_enabled: enabled, ..*old(self) }),
    {
        if self.echo_cancellation_enabled == enabled {
            return false;
        }
        self.echo_cancellation_enabled = enabled;
        true
    }

    /// Chooses the noise-suppression strength; `true` when that changed something.
    pub fn set_suppression_strength(&mut self, strength: SuppressionStrength) -> (changed: bool)
        ensures
            changed == (old(self).suppression_strength != strength),
            *final(self) == (ClearLineAppState { suppression_strength: strength, ..*old(self) }),
    {
        if self.suppression_strength == strength {
            return false;
        }
        self.suppression_strength = strength;
        true
    }
}

/// What the caller does after a tray event.
#[derive(Debug, Clone, Copy, PartialEq, Eq, Structural)]
pub enum TrayReaction {
    /// Show and focus the window.
    ShowWindow,
    /// A setting changed: save the settings and apply the change to the pipeline.
    SettingsChanged,
    /// Change the start-on-login entry to this value in the background.
    ChangeStartOnLogin(bool),
    /// Close the window for good.
    Exit,
    /// Nothing to do.
    Nothing,
}

impl ClearLineAppState {
    /// The check marks of the tray menu: the current switches, and for start-on-login the
    /// value being applied while a change is under way.
    pub fn tray_menu_state(&self) -> (r: TrayMenuState)
        ensures
            r == (TrayMenuState {
                noise_suppression_enabled: self.noise_suppression_enabled,
                start_on_login_enabled: match self.pending_start_on_login_enabled {
                    Some(v) => v,
                    None => self.start_on_login_enabled,
                },
                wind_noise_reduction_enabled: self.wind_noise_reduction_enabled,
                echo_cancellation_enabled: self.echo_cancellation_enabled,
            }),
    {
        TrayMenuState {
            noise_suppression_enabled: self.noise_suppression_enabled,
            start_on_login_enabled: match self.pending_start_on_login_enabled {
                Some(v) => v,
                None => self.start_on_login_enabled,
            },
            wind_noise_reduction_enabled: self.wind_noise_reduction_enabled,
            echo_cancellation_enabled: self.echo_cancellation_enabled,
        }
    }

    /// Starts a change of the start-on-login entry unless one is under way; `true` when the
    /// caller should now run it.
    pub fn begin_start_on_login_change(&mut self, enabled: bool) -> (started: bool)
        ensures
            started == (old(self).pending_start_on_login_enabled is None),
            !started ==> *final(self) == *old(self),
            started ==> *final(self) == (ClearLineAppState {
                pending_start_on_login_enabled: Some(enabled),
                status_message: final(self).status_message,
                ..*old(self)
            }) && final(self).status_message@ == if enabled {
                "正在开启开机自启动"@
            } else {
                "正在关闭开机自启动"@
            },
    {
        if self.pending_start_on_login_enabled.is_some() {
            return false;
        }
        self.pending_start_on_login_enabled = Some(enabled);
        self.status_message = if enabled {
            "正在开启开机自启动".to_string()
        } else {
            "正在关闭开机自启动".to_string()
        };
        true
    }

    /// Takes in how a start-on-login change went. On success the setting takes the new value
    /// and `true` asks the caller to save the settings; either way the status line says how
    /// it went.
    pub fn finish_start_on_login_change(&mut self, enabled: bool, result: Result<(), String>) -> (save: bool)
        ensures
            save == (result is Ok),
            final(self).pending_start_on_login_enabled is None,
            final(self).start_on_login_enabled == if result is Ok {
                enabled
            } else {
                old(self).start_on_login_enabled
            },
            final(self).status_message@ == match result {
                Ok(()) => if enabled {
                    "已开启开机自启动"@
                } else {
                    "已关闭开机自启动"@
                },
                Err(e) => "开机自启动设置失败："@ + e@,
            },
            *final(self) == (ClearLineAppState {
                pending_start_on_login_enabled: None,
                start_on_login_enabled: final(self).start_on_login_enabled,
                status_message: final(self).status_message,
                ..*old(self)
            }),
    {
        self.pending_start_on_login_enabled = None;
        match result {
            Ok(()) => {
                self.start_on_login_enabled = enabled;
                self.status_message = if enabled {
                    "已开启开机自启动".to_string()
                } else {
                    "已关闭开机自启动".to_string()
                };
                true
            },
            Err(error) => {
                self.status_message = concat2("开机自启动设置失败：", error.as_str());
                false
            },
        }
    }

    /// The background change ended without a result.
    pub fn start_on_login_task_lost(&mut self)
        ensures
            *final(self) == (ClearLineAppState {
                pending_start_on_login_enabled: None,
                status_message: final(self).status_message,
                ..*old(self)
            }),
            final(self).status_message@ == "开机自启动设置失败：后台任务已断开"@,
    {
        self.pending_start_on_login_enabled = None;
        self.status_message = "开机自启动设置失败：后台任务已断开".to_string();
    }

    /// What a tray event does: toggles flip their switch, start-on-login begins a change
    /// unless one is under way, exit marks the application as leaving.
    pub fn handle_tray_event(&mut self, event: TrayEvent) -> (r: TrayReaction)
        ensures
            match event {
                TrayEvent::ShowWindow => r == TrayReaction::ShowWindow && *final(self) == *old(self),
                TrayEvent::ToggleNoiseSuppression => r == TrayReaction::SettingsChanged && *final(self)
                    == (ClearLineAppState {
                    noise_suppression_enabled: !old(self).noise_suppression_enabled,
                    ..*old(self)
                }),
                TrayEvent::ToggleWindNoiseReduction => r == TrayReaction::SettingsChanged
                    && *final(self) == (ClearLineAppState {
                    wind_noise_reduction_enabled: !old(self).wind_noise_reduction_enabled,
                    ..*old(self)
                }),
                TrayEvent::ToggleEchoCancellation => r == TrayReaction::SettingsChanged && *final(self)
                    == (ClearLineAppState {
                    echo_cancellation_enabled: !old(self).echo_cancellation_enabled,
                    ..*old(self)
                }),
                TrayEvent::ToggleStartOnLogin => if old(self).pending_start_on_login_enabled is None {
                    &&& r == TrayReaction::ChangeStartOnLogin(!old(self).start_on_login_enabled)
                    &&& final(self).pending_start_on_login_enabled == Some(!old(self).start_on_login_enabled)
                } else {
                    r == TrayReaction::Nothing && *final(self) == *old(self)
                },
                TrayEvent::Exit => r == TrayReaction::Exit && *final(self) == (ClearLineAppState {
                    exit_requested: true,
                    ..*old(self)
                }),
            },
    {
        match event {
            TrayEvent::ShowWindow => TrayReaction::ShowWindow,
            TrayEvent::ToggleNoiseSuppression => {
                let next = !self.noise_suppression_enabled;
                self.set_noise_suppression_enabled(next);
                TrayReaction::SettingsChanged
            },
            TrayEvent::ToggleWindNoiseReduction => {
                let next = !self.wind_noise_reduction_enabled;
                self.set_wind_noise_reduction_enabled(next);
                TrayReaction::SettingsChanged
            },
            TrayEvent::ToggleEchoCancellation => {
                let next = !self.echo_cancellation_enabled;
                self.set_echo_cancellation_enabled(next);
                TrayReaction::SettingsChanged
            },
            TrayEvent::ToggleStartOnLogin => {
                let next = !self.start_on_login_enabled;
                if self.begin_start_on_login_change(next) {
                    TrayReaction::ChangeStartOnLogin(next)
                } else {
                    TrayReaction::Nothing
                }
            },
            TrayEvent::Exit => {
                self.exit_requested = true;
                TrayReaction::Exit
            },
        }
    }

    /// A request to close the window hides it in the tray instead, unless the application
    /// is leaving or has no tray icon; `true` when the window should be hidden.
    pub fn close_to_tray(&mut self, tray_installed: bool, close_requested: bool) -> (hide: bool)
        ensures
            hide == (!old(self).exit_requested && tray_installed && close_requested),
            !hide ==> *final(self) == *old(self),
            hide ==> *final(self) == (ClearLineAppState { status_message: final(self).status_message, ..*old(self) })
                && final(self).status_message@ == "已最小化到系统托盘，双击托盘图标可恢复窗口"@,
    {
        if self.exit_requested {
            return false;
        }
        if tray_installed && close_requested {
            self.status_message = "已最小化到系统托盘，双击托盘图标可恢复窗口".to_string();
            return true;
        }
        false
    }
}

/// The flags that start the application hidden in the tray.
pub open spec fn is_minimized_flag(a: Seq<char>) -> bool {
    a == "--minimized"@ || a == "--hidden"@ || a == "/minimized"@
}

/// Whether the command line asks to start hidden in the tray.
pub fn start_minimized_from_args(args: &[&str]) -> (r: bool)
    ensures
        r == exists|i: int| 0 <= i < args@.len() && is_minimized_flag(#[trigger] args@[i]@),
{
    let mut i: usize = 0;
    while i < args.len()
        invariant
            i <= args.len(),
            forall|k: int| 0 <= k < i ==> !is_minimized_flag(#[trigger] args@[k]@),
        decreases args.len() - i,
    {
        let a: &str = args[i];
        if str_eq(a, "--minimized") || str_eq(a, "--hidden") || str_eq(a, "/minimized") {
            assert(is_minimized_flag(args@[i as int]@));
            return true;
        }
        i += 1;
    }
    false
}

/// No two endpoints share an identifier.
pub open spec fn output_ids_distinct(outputs: Seq<AudioOutputDevice>) -> bool {
    forall|i: int, j: int|
        0 <= i < outputs.len() && 0 <= j < outputs.len() && i != j ==> #[trigger] outputs[i].spec_id()
            != #[trigger] outputs[j].spec_id()
}

/// Whatever was selected before, the output kept after a refresh is nothing or a listed
/// VB-CABLE endpoint (endpoint identifiers being distinct).
pub proof fn lemma_ensured_output_is_vb_cable(selected: Option<Seq<char>>, outputs: Seq<AudioOutputDevice>)
    requires
        output_ids_distinct(outputs),
    ensures
        ensured_output(selected, outputs) matches Some(id) ==> is_listed_vb_cable(id, outputs),
{
    lemma_first_index(outputs, output_is_vb_cable(), None);
    match selected {
        Some(id) => lemma_first_index(outputs, AudioOutputDevice::with_id_pred(id), None),
        None => {},
    }
    match first_index(outputs, output_is_vb_cable()) {
        Some(i) => {
            let id = outputs[i].spec_id();
            let p = AudioOutputDevice::with_id_pred(id);
            lemma_first_index(outputs, p, None);
            assert(p(outputs[i]));
            let j = first_index(outputs, p);
            assert(j is Some) by {
                if j is None {
                    assert(!p(outputs[i]));
                }
            }
            assert(outputs[j->0].spec_id() == id);
            assert(j->0 == i);
        },
        None => {},
    }
}

/// Whatever was selected before, the input kept after a refresh is listed, and nothing is
/// selected only when no input is listed.
pub proof fn lemma_ensured_input_is_listed(selected: Option<Seq<char>>, devices: Seq<AudioInputDevice>)
    ensures
        ensured_input(selected, devices) is None <==> devices.len() == 0,
        ensured_input(selected, devices) matches Some(id) ==> first_index(
            devices,
            AudioInputDevice::with_id_pred(id),
        ) is Some,
{
    lemma_first_index(devices, input_is_default(), None);
    match selected {
        Some(id) => lemma_first_index(devices, AudioInputDevice::with_id_pred(id), None),
        None => {},
    }
    let fallback_index: int = match first_index(devices, input_is_default()) {
        Some(i) => i,
        None => 0,
    };
    if devices.len() > 0 {
        let id = devices[fallback_index].spec_id();
        let p = AudioInputDevice::with_id_pred(id);
        lemma_first_index(devices, p, None);
        assert(p(devices[fallback_index]));
        if first_index(devices, p) is None {
            assert(!p(devices[fallback_index]));
        }
    }
}

/// Saving the settings and applying them back, with the same devices listed, restores every
/// choice: the strength, the switches, a listed (non-blank) input, and the VB-CABLE output
/// that a refresh would pick; the mode comes back as high quality, the only one offered.
pub proof fn lemma_saved_settings_restore_choices(
    st: ClearLineAppState,
    saved: PersistedSettings,
    before: ClearLineAppState,
    after: ClearLineAppState,
)
    requires
        snapshot_of(st, saved),
        settings_applied(before, after, saved),
        before.devices@ == st.devices@,
        before.output_devices@ == st.output_devices@,
    ensures
        after.suppression_strength == st.suppression_strength,
        after.wind_noise_reduction_enabled == st.wind_noise_reduction_enabled,
        after.noise_suppression_enabled == st.noise_suppression_enabled,
        after.echo_cancellation_enabled == st.echo_cancellation_enabled,
        after.start_on_login_enabled == st.start_on_login_enabled,
        after.suppressor_mode == SuppressorModeSelection(SuppressorMode::HighQuality),
        opt_id(after.selected_output_device_id) == restored_output(st.output_devices@),
        (st.selected_device_id matches Some(id) && crate::text::trim(id@).len() > 0 && first_index(
            st.devices@,
            AudioInputDevice::with_id_pred(id@),
        ) is Some) ==> opt_id(after.selected_device_id) == opt_id(st.selected_device_id),
        st.selected_device_id is None ==> opt_id(after.selected_device_id) == fallback_input(st.devices@),
{
    crate::settings::lemma_strength_setting_round_trip(st.suppression_strength);
    match st.selected_device_id {
        Some(id) => {
            let p = AudioInputDevice::with_id_pred(id@);
            lemma_first_index(st.devices@, p, None);
        },
        None => {},
    }
}

/// A refresh keeps the chosen microphone: when the selection names a listed input, it is
/// what the refresh keeps, whatever else is listed and whichever device is the default.
pub proof fn lemma_listed_input_selection_is_kept(id: Seq<char>, devices: Seq<AudioInputDevice>, k: int)
    requires
        0 <= k < devices.len(),
        devices[k].spec_id() == id,
    ensures
        ensured_input(Some(id), devices) == Some(id),
{
    let p = AudioInputDevice::with_id_pred(id);
    lemma_first_index(devices, p, None);
    if first_index(devices, p) is None {
        assert(p(devices[k]));
    }
}

/// A refresh replaces the selection only when it is missing or names no listed input; it
/// then picks the first device marked default, and the first listed device only when none is
/// marked default.
pub proof fn lemma_unlisted_input_selection_falls_back(selected: Option<Seq<char>>, devices: Seq<AudioInputDevice>)
    requires
        selected matches Some(id) ==> forall|j: int| 0 <= j < devices.len() ==> devices[j].spec_id() != id,
    ensures
        forall|i: int|
            0 <= i < devices.len() && #[trigger] devices[i].spec_is_default() && (forall|j: int|
                0 <= j < i ==> !devices[j].spec_is_default()) ==> ensured_input(selected, devices) == Some(
                devices[i].spec_id(),
            ),
        (forall|j: int| 0 <= j < devices.len() ==> !devices[j].spec_is_default()) ==> ensured_input(
            selected,
            devices,
        ) == (if devices.len() > 0 {
            Some(devices[0].spec_id())
        } else {
            None
        }),
{
    match selected {
        Some(id) => {
            let p = AudioInputDevice::with_id_pred(id);
            assert forall|j: int| 0 <= j < devices.len() implies !p(#[trigger] devices[j]) by {}
            lemma_first_index(devices, p, None);
        },
        None => {},
    }
    lemma_fallback_input_prefers_default(devices);
}

} // verus!

