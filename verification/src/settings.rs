//! The settings that the desktop application keeps between runs, and the text values that
//! stand for modes and strengths in them.
use vstd::prelude::*;
use vstd::string::*;
use crate::suppressor::{SuppressionStrength, SuppressorMode};
use crate::text::{concat2, str_eq};

verus! {

broadcast use vstd::string::group_string_axioms;

/// Version of the settings layout written by this library.
pub const SETTINGS_VERSION: u32 = 2;

pub const MODE_LOW_LATENCY: &'static str = "low_latency";

pub const MODE_HIGH_QUALITY: &'static str = "high_quality";

pub const STRENGTH_GENTLE: &'static str = "gentle";

pub const STRENGTH_BALANCED: &'static str = "balanced";

pub const STRENGTH_STRONG: &'static str = "strong";

pub const OUTPUT_TARGET_VB_CABLE: &'static str = "vb_cable";

pub const OUTPUT_TARGET_VIRTUAL_MIC: &'static str = "clearline_virtual_microphone";

pub const OUTPUT_TARGET_AUDIO_DEVICE: &'static str = "audio_device";

/// Settings as they are stored.
#[derive(Debug, Clone, PartialEq, Eq)]
pub struct PersistedSettings {
    pub version: u32,
    pub input_device_id: Option<String>,
    pub input_device_name: Option<String>,
    pub output_device_id: Option<String>,
    pub output_device_name: Option<String>,
    pub output_target: String,
    pub suppressor_mode: String,
    pub suppression_strength: String,
    pub wind_noise_reduction_enabled: bool,
    pub echo_cancellation_enabled: bool,
    pub noise_suppression_enabled: bool,
    pub microphone_boost_enabled: bool,
    pub start_on_login_enabled: bool,
    pub deepfilter_model_dir: String,
}

/// The stored defaults: current version, no devices, VB-CABLE output, high quality at
/// balanced strength, echo cancellation, noise suppression and microphone boost on, wind
/// reduction and start-on-login off, no model directory.
pub open spec fn is_default_settings(s: PersistedSettings) -> bool {
    &&& s.version == SETTINGS_VERSION
    &&& s.input_device_id is None
    &&& s.input_device_name is None
    &&& s.output_device_id is None
    &&& s.output_device_name is None
    &&& s.output_target@ == OUTPUT_TARGET_VB_CABLE@
    &&& s.suppressor_mode@ == MODE_HIGH_QUALITY@
    &&& s.suppression_strength@ == STRENGTH_BALANCED@
    &&& !s.wind_noise_reduction_enabled
    &&& s.echo_cancellation_enabled
    &&& s.noise_suppression_enabled
    &&& s.microphone_boost_enabled
    &&& !s.start_on_login_enabled
    &&& s.deepfilter_model_dir@ == Seq::<char>::empty()
}

impl Default for PersistedSettings {
    fn default() -> (r: Self)
        ensures
            is_default_settings(r),
    {
        PersistedSettings {
            version: SETTINGS_VERSION,
            input_device_id: None,
            input_device_name: None,
            output_device_id: None,
            output_device_name: None,
            output_target: String::from_str(OUTPUT_TARGET_VB_CABLE),
            suppressor_mode: String::from_str(MODE_HIGH_QUALITY),
            suppression_strength: String::from_str(STRENGTH_BALANCED),
            wind_noise_reduction_enabled: false,
            echo_cancellation_enabled: true,
            noise_suppression_enabled: true,
            microphone_boost_enabled: true,
            start_on_login_enabled: false,
            deepfilter_model_dir: String::new(),
        }
    }
}

/// Default of a missing `version` field.
pub fn default_version() -> (r: u32)
    ensures
        r == SETTINGS_VERSION,
{
    SETTINGS_VERSION
}

/// Default of a missing `suppressor_mode` field.
pub fn default_suppressor_mode() -> (r: String)
    ensures
        r@ == MODE_HIGH_QUALITY@,
{
    String::from_str(MODE_HIGH_QUALITY)
}

/// Default of a missing `suppression_strength` field.
pub fn default_suppression_strength() -> (r: String)
    ensures
        r@ == STRENGTH_BALANCED@,
{
    String::from_str(STRENGTH_BALANCED)
}

/// Default of a missing `output_target` field.
pub fn default_output_target() -> (r: String)
    ensures
        r@ == OUTPUT_TARGET_VB_CABLE@,
{
    String::from_str(OUTPUT_TARGET_VB_CABLE)
}

/// Default of a missing `echo_cancellation_enabled` field.
pub fn default_echo_cancellation_enabled() -> (r: bool)
    ensures
        r,
{
    true
}

/// Default of a missing `noise_suppression_enabled` field.
pub fn default_noise_suppression_enabled() -> (r: bool)
    ensures
        r,
{
    true
}

/// Default of a missing `microphone_boost_enabled` field.
pub fn default_microphone_boost_enabled() -> (r: bool)
    ensures
        r,
{
    true
}

/// Every mode is stored as high quality: the application only offers that mode.
pub fn suppressor_mode_to_setting(mode: SuppressorMode) -> (r: &'static str)
    ensures
        r@ == MODE_HIGH_QUALITY@,
{
    match mode {
        SuppressorMode::Bypass => MODE_HIGH_QUALITY,
        SuppressorMode::LowLatency => MODE_HIGH_QUALITY,
        SuppressorMode::HighQuality => MODE_HIGH_QUALITY,
    }
}

/// Every stored mode, known or not, loads as high quality.
pub fn suppressor_mode_from_setting(value: &str) -> (r: SuppressorMode)
    ensures
        r == SuppressorMode::HighQuality,
{
    if str_eq(value, MODE_HIGH_QUALITY) {
        SuppressorMode::HighQuality
    } else if str_eq(value, MODE_LOW_LATENCY) {
        SuppressorMode::HighQuality
    } else {
        SuppressorMode::HighQuality
    }
}

/// The stored name of a strength.
pub open spec fn strength_setting(strength: SuppressionStrength) -> Seq<char> {
    match strength {
        SuppressionStrength::Gentle => STRENGTH_GENTLE@,
        SuppressionStrength::Balanced => STRENGTH_BALANCED@,
        SuppressionStrength::Strong => STRENGTH_STRONG@,
    }
}

pub fn suppression_strength_to_setting(strength: SuppressionStrength) -> (r: &'static str)
    ensures
        r@ == strength_setting(strength),
{
    match strength {
        SuppressionStrength::Gentle => STRENGTH_GENTLE,
        SuppressionStrength::Balanced => STRENGTH_BALANCED,
        SuppressionStrength::Strong => STRENGTH_STRONG,
    }
}

/// The strength stored as `value`; balanced for anything unknown.
pub open spec fn strength_from_setting(value: Seq<char>) -> SuppressionStrength {
    if value == STRENGTH_GENTLE@ {
        SuppressionStrength::Gentle
    } else if value == STRENGTH_STRONG@ {
        SuppressionStrength::Strong
    } else {
        SuppressionStrength::Balanced
    }
}

pub fn suppression_strength_from_setting(value: &str) -> (r: SuppressionStrength)
    ensures
        r == strength_from_setting(value@),
{
    if str_eq(value, STRENGTH_GENTLE) {
        SuppressionStrength::Gentle
    } else if str_eq(value, STRENGTH_STRONG) {
        SuppressionStrength::Strong
    } else {
        SuppressionStrength::Balanced
    }
}

/// The three stored strength names are distinct.
pub proof fn lemma_strength_settings_distinct()
    ensures
        STRENGTH_GENTLE@ != STRENGTH_BALANCED@,
        STRENGTH_GENTLE@ != STRENGTH_STRONG@,
        STRENGTH_BALANCED@ != STRENGTH_STRONG@,
{
    reveal_strlit("gentle");
    reveal_strlit("balanced");
    reveal_strlit("strong");
    assert(STRENGTH_GENTLE@[0] != STRENGTH_BALANCED@[0]);
    assert(STRENGTH_GENTLE@[0] != STRENGTH_STRONG@[0]);
    assert(STRENGTH_BALANCED@[0] != STRENGTH_STRONG@[0]);
}

/// Storing a strength and loading it back gives the same strength.
pub proof fn lemma_strength_setting_round_trip(strength: SuppressionStrength)
    ensures
        strength_from_setting(strength_setting(strength)) == strength,
{
    lemma_strength_settings_distinct();
}

// ---------------------------------------------------------------------------------------------
// The settings file
// ---------------------------------------------------------------------------------------------

/// Why the settings could not be read or written.
#[derive(Debug, Clone, PartialEq, Eq)]
pub enum SettingsError {
    /// The file system refused; the text says why.
    Io(String),
    /// The file is not valid settings; the text says why.
    Json(String),
    /// No configuration directory is known for this user.
    ConfigDirUnavailable,
}

impl SettingsError {
    pub fn message(&self) -> (r: String)
        ensures
            r@ == match self {
                SettingsError::Io(e) => "settings io error: "@ + e@,
                SettingsError::Json(e) => "failed to parse settings: "@ + e@,
                SettingsError::ConfigDirUnavailable => "settings directory is unavailable"@,
            },
    {
        match self {
            SettingsError::Io(e) => concat2("settings io error: ", e.as_str()),
            SettingsError::Json(e) => concat2("failed to parse settings: ", e.as_str()),
            SettingsError::ConfigDirUnavailable => "settings directory is unavailable".to_string(),
        }
    }
}

/// Where the settings live, below the user's configuration directory.
pub fn settings_file_parts() -> (r: (&'static str, &'static str))
    ensures
        r.0@ == "ClearLine"@,
        r.1@ == "settings.json"@,
{
    ("ClearLine", "settings.json")
}

/// The settings file of the application.
#[derive(Debug, Clone)]
pub struct SettingsStore {
    pub path: std::path::PathBuf,
}

impl SettingsStore {
    /// The store that reads and writes `path`.
    pub fn from_path(path: std::path::PathBuf) -> (r: Self)
        ensures
            r.path == path,
    {
        SettingsStore { path }
    }

    pub fn path(&self) -> (r: &std::path::PathBuf)
        ensures
            *r == self.path,
    {
        &self.path
    }
}

} // verus!
