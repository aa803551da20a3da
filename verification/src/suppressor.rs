//! Noise-suppression modes, their strengths, the audio frame format the suppressors run on,
//! and what a running suppressor reports about itself.
use vstd::prelude::*;
use vstd::string::*;
use crate::error::ClearLineError;

verus! {

broadcast use vstd::string::group_string_axioms;

/// Which noise suppressor the pipeline runs.
#[derive(Debug, Clone, Copy, PartialEq, Eq, Structural)]
pub enum SuppressorMode {
    Bypass,
    LowLatency,
    HighQuality,
}

/// Every suppressor mode, in the order the UI lists them.
pub fn all_suppressor_modes() -> (r: [SuppressorMode; 3])
    ensures
        r@ == seq![SuppressorMode::Bypass, SuppressorMode::LowLatency, SuppressorMode::HighQuality],
{
    let r = [SuppressorMode::Bypass, SuppressorMode::LowLatency, SuppressorMode::HighQuality];
    assert(r@ =~= seq![SuppressorMode::Bypass, SuppressorMode::LowLatency, SuppressorMode::HighQuality]);
    r
}

impl SuppressorMode {
    /// The English name of the mode.
    pub fn as_str(self) -> (r: &'static str)
        ensures
            r@ == match self {
                SuppressorMode::Bypass => "Bypass"@,
                SuppressorMode::LowLatency => "Low latency"@,
                SuppressorMode::HighQuality => "High quality"@,
            },
    {
        match self {
            SuppressorMode::Bypass => "Bypass",
            SuppressorMode::LowLatency => "Low latency",
            SuppressorMode::HighQuality => "High quality",
        }
    }
}

/// How hard the suppressor attenuates what it takes for noise.
#[derive(Debug, Clone, Copy, PartialEq, Eq, Structural)]
pub enum SuppressionStrength {
    Gentle,
    Balanced,
    Strong,
}

/// Every strength, from the gentlest to the strongest.
pub fn all_suppression_strengths() -> (r: [SuppressionStrength; 3])
    ensures
        r@ == seq![SuppressionStrength::Gentle, SuppressionStrength::Balanced, SuppressionStrength::Strong],
{
    let r = [SuppressionStrength::Gentle, SuppressionStrength::Balanced, SuppressionStrength::Strong];
    assert(r@ =~= seq![SuppressionStrength::Gentle, SuppressionStrength::Balanced, SuppressionStrength::Strong]);
    r
}

impl Default for SuppressionStrength {
    fn default() -> (r: Self)
        ensures
            r == SuppressionStrength::Balanced,
    {
        SuppressionStrength::Balanced
    }
}

/// Sample rate and channel count of interleaved audio.
#[derive(Debug, Clone, Copy, PartialEq, Eq, Structural)]
pub struct AudioFrameFormat {
    pub sample_rate_hz: u32,
    pub channels: u16,
}

impl AudioFrameFormat {
    pub fn new(sample_rate_hz: u32, channels: u16) -> (r: Self)
        ensures
            r.sample_rate_hz == sample_rate_hz,
            r.channels == channels,
    {
        AudioFrameFormat { sample_rate_hz, channels }
    }

    pub fn sample_rate_hz(self) -> (r: u32)
        ensures
            r == self.sample_rate_hz,
    {
        self.sample_rate_hz
    }

    pub fn channels(self) -> (r: u16)
        ensures
            r == self.channels,
    {
        self.channels
    }
}

impl Default for AudioFrameFormat {
    fn default() -> (r: Self)
        ensures
            r.sample_rate_hz == 48_000,
            r.channels == 1,
    {
        AudioFrameFormat::new(48_000, 1)
    }
}

/// Samples in one frame of `sample_rate_hz / per_second` samples per channel (at least one),
/// over all channels (at least one).
pub open spec fn frame_samples(format: AudioFrameFormat, per_second: int) -> int {
    let per_channel = if (format.sample_rate_hz as int) / per_second >= 1 {
        (format.sample_rate_hz as int) / per_second
    } else {
        1
    };
    let channels = if format.channels >= 1 { format.channels as int } else { 1 };
    per_channel * channels
}

/// Frame size of the low-latency suppressor: 10 ms per channel.
pub fn low_latency_frame_size_samples(format: AudioFrameFormat) -> (r: usize)
    requires
        frame_samples(format, 100) <= usize::MAX,
    ensures
        r == frame_samples(format, 100),
{
    let per_channel: u32 = if format.sample_rate_hz / 100 >= 1 { format.sample_rate_hz / 100 } else { 1 };
    let channels: u16 = if format.channels >= 1 { format.channels } else { 1 };
    assert(per_channel * channels <= 42949673 * 65535) by (nonlinear_arith)
        requires per_channel <= 42949673, channels <= 65535;
    (per_channel as u64 * channels as u64) as usize
}

/// Frame size of the high-quality suppressor: 20 ms per channel.
pub fn high_quality_frame_size_samples(format: AudioFrameFormat) -> (r: usize)
    requires
        frame_samples(format, 50) <= usize::MAX,
    ensures
        r == frame_samples(format, 50),
{
    let per_channel: u32 = if format.sample_rate_hz / 50 >= 1 { format.sample_rate_hz / 50 } else { 1 };
    let channels: u16 = if format.channels >= 1 { format.channels } else { 1 };
    assert(per_channel * channels <= 85899346 * 65535) by (nonlinear_arith)
        requires per_channel <= 85899346, channels <= 65535;
    (per_channel as u64 * channels as u64) as usize
}

/// The RNNoise frame: 480 mono samples at 48 kHz.
pub const RNNOISE_FRAME_SIZE: usize = 480;

/// The sample rate that RNNoise runs at.
pub const RNNOISE_SAMPLE_RATE_HZ: u32 = 48_000;

/// Whether RNNoise can run on frames of this format and size: 48 kHz, and one RNNoise frame
/// per channel.
pub fn rnnoise_supports(format: AudioFrameFormat, frame_size_samples: usize) -> (r: bool)
    ensures
        r == (format.sample_rate_hz == 48_000 && frame_size_samples == 480 * (if format.channels
            >= 1 {
            format.channels as int
        } else {
            1
        })),
{
    let channels: usize = if format.channels >= 1 { format.channels as usize } else { 1 };
    format.sample_rate_hz == RNNOISE_SAMPLE_RATE_HZ && frame_size_samples == RNNOISE_FRAME_SIZE
        * channels
}

/// The state of the background inference worker of a suppressor.
#[derive(Debug, Clone, Copy, PartialEq, Eq, Structural)]
pub struct SuppressorWorkerDiagnostics {
    pub input_queue_capacity: usize,
    pub pending_input_frames: usize,
    pub output_queue_capacity: usize,
    pub pending_output_frames: usize,
    pub dropped_input_frames: u64,
    pub dropped_output_frames: u64,
    pub late_output_frames: u64,
    pub inference_errors: u64,
    pub last_inference_time_ms: Option<u32>,
    pub max_inference_time_ms: Option<u32>,
    pub degraded: bool,
}

impl SuppressorWorkerDiagnostics {
    /// Queue state with every counter at zero, no timing yet and not degraded.
    pub fn new(
        input_queue_capacity: usize,
        pending_input_frames: usize,
        output_queue_capacity: usize,
        pending_output_frames: usize,
    ) -> (r: Self)
        ensures
            r == (SuppressorWorkerDiagnostics {
                input_queue_capacity,
                pending_input_frames,
                output_queue_capacity,
                pending_output_frames,
                dropped_input_frames: 0,
                dropped_output_frames: 0,
                late_output_frames: 0,
                inference_errors: 0,
                last_inference_time_ms: None,
                max_inference_time_ms: None,
                degraded: false,
            }),
    {
        SuppressorWorkerDiagnostics {
            input_queue_capacity,
            pending_input_frames,
            output_queue_capacity,
            pending_output_frames,
            dropped_input_frames: 0,
            dropped_output_frames: 0,
            late_output_frames: 0,
            inference_errors: 0,
            last_inference_time_ms: None,
            max_inference_time_ms: None,
            degraded: false,
        }
    }

    pub fn input_queue_capacity(self) -> (r: usize)
        ensures
            r == self.input_queue_capacity,
    {
        self.input_queue_capacity
    }

    pub fn pending_input_frames(self) -> (r: usize)
        ensures
            r == self.pending_input_frames,
    {
        self.pending_input_frames
    }

    pub fn output_queue_capacity(self) -> (r: usize)
        ensures
            r == self.output_queue_capacity,
    {
        self.output_queue_capacity
    }

    pub fn pending_output_frames(self) -> (r: usize)
        ensures
            r == self.pending_output_frames,
    {
        self.pending_output_frames
    }

    pub fn dropped_input_frames(self) -> (r: u64)
        ensures
            r == self.dropped_input_frames,
    {
        self.dropped_input_frames
    }

    pub fn dropped_output_frames(self) -> (r: u64)
        ensures
            r == self.dropped_output_frames,
    {
        self.dropped_output_frames
    }

    pub fn late_output_frames(self) -> (r: u64)
        ensures
            r == self.late_output_frames,
    {
        self.late_output_frames
    }

    pub fn inference_errors(self) -> (r: u64)
        ensures
            r == self.inference_errors,
    {
        self.inference_errors
    }

    pub fn last_inference_time_ms(self) -> (r: Option<u32>)
        ensures
            r == self.last_inference_time_ms,
    {
        self.last_inference_time_ms
    }

    pub fn max_inference_time_ms(self) -> (r: Option<u32>)
        ensures
            r == self.max_inference_time_ms,
    {
        self.max_inference_time_ms
    }

    pub fn is_degraded(self) -> (r: bool)
        ensures
            r == self.degraded,
    {
        self.degraded
    }

    pub fn with_dropped_input_frames(self, count: u64) -> (r: Self)
        ensures
            r == (SuppressorWorkerDiagnostics { dropped_input_frames: count, ..self }),
    {
        SuppressorWorkerDiagnostics { dropped_input_frames: count, ..self }
    }

    pub fn with_dropped_output_frames(self, count: u64) -> (r: Self)
        ensures
            r == (SuppressorWorkerDiagnostics { dropped_output_frames: count, ..self }),
    {
        SuppressorWorkerDiagnostics { dropped_output_frames: count, ..self }
    }

    pub fn with_late_output_frames(self, count: u64) -> (r: Self)
        ensures
            r == (SuppressorWorkerDiagnostics { late_output_frames: count, ..self }),
    {
        SuppressorWorkerDiagnostics { late_output_frames: count, ..self }
    }

    pub fn with_inference_errors(self, count: u64) -> (r: Self)
        ensures
            r == (SuppressorWorkerDiagnostics { inference_errors: count, ..self }),
    {
        SuppressorWorkerDiagnostics { inference_errors: count, ..self }
    }

    pub fn with_last_inference_time_ms(self, millis: u32) -> (r: Self)
        ensures
            r == (SuppressorWorkerDiagnostics { last_inference_time_ms: Some(millis), ..self }),
    {
        SuppressorWorkerDiagnostics { last_inference_time_ms: Some(millis), ..self }
    }

    pub fn with_max_inference_time_ms(self, millis: u32) -> (r: Self)
        ensures
            r == (SuppressorWorkerDiagnostics { max_inference_time_ms: Some(millis), ..self }),
    {
        SuppressorWorkerDiagnostics { max_inference_time_ms: Some(millis), ..self }
    }

    pub fn with_degraded(self, degraded: bool) -> (r: Self)
        ensures
            r == (SuppressorWorkerDiagnostics { degraded, ..self }),
    {
        SuppressorWorkerDiagnostics { degraded, ..self }
    }
}

/// What a constructed suppressor reports: its mode, backend, frame size and whether it
/// really suppresses noise.
#[derive(Debug, Clone, Copy, PartialEq, Eq)]
pub struct SuppressorRuntimeInfo {
    pub mode: SuppressorMode,
    pub backend_name: &'static str,
    pub frame_size_samples: usize,
    pub is_real_noise_suppression: bool,
    pub strength: Option<SuppressionStrength>,
    pub worker_diagnostics: Option<SuppressorWorkerDiagnostics>,
}

impl SuppressorRuntimeInfo {
    pub fn new(
        mode: SuppressorMode,
        backend_name: &'static str,
        frame_size_samples: usize,
        is_real_noise_suppression: bool,
    ) -> (r: Self)
        ensures
            r.mode == mode,
            r.backend_name@ == backend_name@,
            r.frame_size_samples == frame_size_samples,
            r.is_real_noise_suppression == is_real_noise_suppression,
            r.strength is None,
            r.worker_diagnostics is None,
    {
        SuppressorRuntimeInfo {
            mode,
            backend_name,
            frame_size_samples,
            is_real_noise_suppression,
            strength: None,
            worker_diagnostics: None,
        }
    }

    pub fn mode(self) -> (r: SuppressorMode)
        ensures
            r == self.mode,
    {
        self.mode
    }

    pub fn backend_name(self) -> (r: &'static str)
        ensures
            r@ == self.backend_name@,
    {
        self.backend_name
    }

    pub fn frame_size_samples(self) -> (r: usize)
        ensures
            r == self.frame_size_samples,
    {
        self.frame_size_samples
    }

    pub fn is_real_noise_suppression(self) -> (r: bool)
        ensures
            r == self.is_real_noise_suppression,
    {
        self.is_real_noise_suppression
    }

    pub fn with_strength(self, strength: SuppressionStrength) -> (r: Self)
        ensures
            r == (SuppressorRuntimeInfo { strength: Some(strength), ..self }),
    {
        SuppressorRuntimeInfo { strength: Some(strength), ..self }
    }

    pub fn strength(self) -> (r: Option<SuppressionStrength>)
        ensures
            r == self.strength,
    {
        self.strength
    }

    pub fn with_worker_diagnostics(self, diagnostics: SuppressorWorkerDiagnostics) -> (r: Self)
        ensures
            r == (SuppressorRuntimeInfo { worker_diagnostics: Some(diagnostics), ..self }),
    {
        SuppressorRuntimeInfo { worker_diagnostics: Some(diagnostics), ..self }
    }

    pub fn worker_diagnostics(self) -> (r: Option<SuppressorWorkerDiagnostics>)
        ensures
            r == self.worker_diagnostics,
    {
        self.worker_diagnostics
    }
}

/// The suppressor that copies its input.
#[derive(Debug, Clone, Copy)]
pub struct BypassSuppressor {
    pub format: AudioFrameFormat,
}

impl BypassSuppressor {
    pub fn new(format: AudioFrameFormat) -> (r: Self)
        ensures
            r.format == format,
    {
        BypassSuppressor { format }
    }

    pub fn mode(&self) -> (r: SuppressorMode)
        ensures
            r == SuppressorMode::Bypass,
    {
        SuppressorMode::Bypass
    }

    pub fn format(&self) -> (r: AudioFrameFormat)
        ensures
            r == self.format,
    {
        self.format
    }

    /// Bypass reports the placeholder backend with no fixed frame.
    pub fn runtime_info(&self) -> (r: SuppressorRuntimeInfo)
        ensures
            r.mode == SuppressorMode::Bypass,
            r.backend_name@ == "bypass-placeholder"@,
            r.frame_size_samples == 0,
            !r.is_real_noise_suppression,
            r.strength is None,
            r.worker_diagnostics is None,
    {
        SuppressorRuntimeInfo::new(SuppressorMode::Bypass, "bypass-placeholder", 0, false)
    }
}

/// Which suppressor to construct for a mode.
#[derive(Debug, Clone, Copy, PartialEq, Eq, Structural)]
pub enum SuppressorPlan {
    Bypass,
    LowLatency,
    DeepFilterNet,
}

/// The suppressor that strict construction builds: bypass and low latency as asked; high
/// quality only with a model bundle and a build that carries DeepFilterNet, and an error
/// otherwise.
pub fn plan_strict_suppressor(
    mode: SuppressorMode,
    has_model_bundle: bool,
    deepfilternet_built: bool,
) -> (r: Result<SuppressorPlan, ClearLineError>)
    ensures
        match mode {
            SuppressorMode::Bypass => r == Ok::<SuppressorPlan, ClearLineError>(SuppressorPlan::Bypass),
            SuppressorMode::LowLatency => r == Ok::<SuppressorPlan, ClearLineError>(SuppressorPlan::LowLatency),
            SuppressorMode::HighQuality => if !deepfilternet_built {
                r matches Err(ClearLineError::ModelLoad(m)) && m@ == "ClearLine was built without DeepFilterNet support"@
            } else if !has_model_bundle {
                r matches Err(ClearLineError::ModelLoad(m)) && m@ == "DeepFilterNet model bundle is required for high quality mode"@
            } else {
                r == Ok::<SuppressorPlan, ClearLineError>(SuppressorPlan::DeepFilterNet)
            },
        },
{
    match mode {
        SuppressorMode::Bypass => Ok(SuppressorPlan::Bypass),
        SuppressorMode::LowLatency => Ok(SuppressorPlan::LowLatency),
        SuppressorMode::HighQuality => {
            if !deepfilternet_built {
                Err(ClearLineError::ModelLoad(String::from_str("ClearLine was built without DeepFilterNet support")))
            } else if !has_model_bundle {
                Err(ClearLineError::ModelLoad(String::from_str("DeepFilterNet model bundle is required for high quality mode")))
            } else {
                Ok(SuppressorPlan::DeepFilterNet)
            }
        },
    }
}

/// The suppressor that lenient construction builds: high quality falls back to the
/// low-latency suppressor when no model is given or the model cannot be loaded.
pub fn plan_fallback_suppressor(mode: SuppressorMode, deepfilternet_loaded: bool) -> (r:
    SuppressorPlan)
    ensures
        r == match mode {
            SuppressorMode::Bypass => SuppressorPlan::Bypass,
            SuppressorMode::LowLatency => SuppressorPlan::LowLatency,
            SuppressorMode::HighQuality => if deepfilternet_loaded {
                SuppressorPlan::DeepFilterNet
            } else {
                SuppressorPlan::LowLatency
            },
        },
{
    match mode {
        SuppressorMode::Bypass => SuppressorPlan::Bypass,
        SuppressorMode::LowLatency => SuppressorPlan::LowLatency,
        SuppressorMode::HighQuality => if deepfilternet_loaded {
            SuppressorPlan::DeepFilterNet
        } else {
            SuppressorPlan::LowLatency
        },
    }
}


/// The four files of a DeepFilterNet model: encoder, ERB decoder, DF decoder and config.
#[derive(Debug, Clone, PartialEq, Eq)]
pub struct DeepFilterNetModelBundle {
    root_dir: std::path::PathBuf,
    encoder_onnx: std::path::PathBuf,
    erb_decoder_onnx: std::path::PathBuf,
    df_decoder_onnx: std::path::PathBuf,
    config_ini: std::path::PathBuf,
}

/// File name of the encoder model.
pub const ENCODER_FILE: &'static str = "enc.onnx";

/// File name of the ERB decoder model.
pub const ERB_DECODER_FILE: &'static str = "erb_dec.onnx";

/// File name of the DF decoder model.
pub const DF_DECODER_FILE: &'static str = "df_dec.onnx";

/// File name of the model configuration.
pub const CONFIG_FILE: &'static str = "config.ini";

impl DeepFilterNetModelBundle {
    /// A bundle of asset paths that the caller has checked to be files.
    pub fn from_asset_paths(
        root_dir: std::path::PathBuf,
        encoder_onnx: std::path::PathBuf,
        erb_decoder_onnx: std::path::PathBuf,
        df_decoder_onnx: std::path::PathBuf,
        config_ini: std::path::PathBuf,
    ) -> (r: Self)
        ensures
            r.spec_root_dir() == root_dir,
            r.spec_encoder_onnx() == encoder_onnx,
            r.spec_erb_decoder_onnx() == erb_decoder_onnx,
            r.spec_df_decoder_onnx() == df_decoder_onnx,
            r.spec_config_ini() == config_ini,
    {
        DeepFilterNetModelBundle { root_dir, encoder_onnx, erb_decoder_onnx, df_decoder_onnx, config_ini }
    }

    pub closed spec fn spec_root_dir(&self) -> std::path::PathBuf {
        self.root_dir
    }

    pub closed spec fn spec_encoder_onnx(&self) -> std::path::PathBuf {
        self.encoder_onnx
    }

    pub closed spec fn spec_erb_decoder_onnx(&self) -> std::path::PathBuf {
        self.erb_decoder_onnx
    }

    pub closed spec fn spec_df_decoder_onnx(&self) -> std::path::PathBuf {
        self.df_decoder_onnx
    }

    pub closed spec fn spec_config_ini(&self) -> std::path::PathBuf {
        self.config_ini
    }

    pub fn root_dir(&self) -> (r: &std::path::PathBuf)
        ensures
            *r == self.spec_root_dir(),
    {
        &self.root_dir
    }

    pub fn encoder_onnx(&self) -> (r: &std::path::PathBuf)
        ensures
            *r == self.spec_encoder_onnx(),
    {
        &self.encoder_onnx
    }

    pub fn erb_decoder_onnx(&self) -> (r: &std::path::PathBuf)
        ensures
            *r == self.spec_erb_decoder_onnx(),
    {
        &self.erb_decoder_onnx
    }

    pub fn df_decoder_onnx(&self) -> (r: &std::path::PathBuf)
        ensures
            *r == self.spec_df_decoder_onnx(),
    {
        &self.df_decoder_onnx
    }

    pub fn config_ini(&self) -> (r: &std::path::PathBuf)
        ensures
            *r == self.spec_config_ini(),
    {
        &self.config_ini
    }
}

} // verus!
