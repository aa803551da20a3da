//! The audio pipeline's configuration, its state machine, and what it reports while it runs.
use vstd::prelude::*;
use vstd::string::*;
use crate::device::DeviceId;
use crate::echo::{EchoCancellerBackend, EchoCancellerRuntimeInfo};
use crate::error::{error_text, ClearLineError};
use crate::suppressor::{
    AudioFrameFormat, DeepFilterNetModelBundle, SuppressionStrength, SuppressorMode,
    SuppressorRuntimeInfo,
};
use crate::text::{decimal, push_decimal};

verus! {

broadcast use vstd::string::group_string_axioms;

// ---------------------------------------------------------------------------------------------
// Buffer metrics and latency
// ---------------------------------------------------------------------------------------------

/// Fill level and fault counters of the output sample buffer.
#[derive(Debug, Clone, Copy, PartialEq, Eq, Structural)]
pub struct PipelineMetrics {
    pub buffered_samples: usize,
    pub capacity_samples: usize,
    pub underrun_sample_count: u64,
    pub dropped_sample_count: u64,
}

/// Interleaved samples per second of a format, each factor taken as at least one.
pub open spec fn samples_per_second(format: AudioFrameFormat) -> int {
    (if format.sample_rate_hz >= 1 { format.sample_rate_hz as int } else { 1 }) * (if format.channels
        >= 1 {
        format.channels as int
    } else {
        1
    })
}

/// `samples` of the format in milliseconds, rounded to the nearest millisecond (halves up),
/// at least 1 ms and at most `u32::MAX`; `None` for no samples.
pub open spec fn latency_ms(samples: nat, format: AudioFrameFormat) -> Option<u32> {
    if samples == 0 {
        None
    } else {
        let sps = samples_per_second(format);
        let rounded = (2000 * samples + sps) / (2 * sps);
        let at_least_one = if rounded >= 1 { rounded } else { 1 };
        Some(if at_least_one > u32::MAX { u32::MAX } else { at_least_one as u32 })
    }
}

proof fn lemma_sps_bounds(format: AudioFrameFormat)
    ensures
        1 <= samples_per_second(format) <= 0xffff_ffff * 0xffff,
{
    let a: int = if format.sample_rate_hz >= 1 { format.sample_rate_hz as int } else { 1 };
    let b: int = if format.channels >= 1 { format.channels as int } else { 1 };
    assert(1 <= a * b <= 0xffff_ffff * 0xffff) by (nonlinear_arith)
        requires 1 <= a <= 0xffff_ffff, 1 <= b <= 0xffff;
}

/// Converts a sample count to milliseconds of audio in `format`.
pub fn samples_to_latency_ms(samples: usize, format: AudioFrameFormat) -> (r: Option<u32>)
    ensures
        r == latency_ms(samples as nat, format),
{
    if samples == 0 {
        return None;
    }
    let rate: u64 = if format.sample_rate_hz >= 1 { format.sample_rate_hz as u64 } else { 1 };
    let channels: u64 = if format.channels >= 1 { format.channels as u64 } else { 1 };
    proof {
        lemma_sps_bounds(format);
        assert(rate * channels <= 0xffff_ffff * 0xffff) by (nonlinear_arith)
            requires rate <= 0xffff_ffff, channels <= 0xffff;
    }
    let sps: u64 = rate * channels;
    assert(sps == samples_per_second(format));
    let numerator: u128 = 2000u128 * (samples as u128) + (sps as u128);
    let denominator: u128 = 2u128 * (sps as u128);
    let rounded: u128 = numerator / denominator;
    let at_least_one: u128 = if rounded >= 1 { rounded } else { 1 };
    let ms: u32 = if at_least_one > 0xffff_ffffu128 { 0xffff_ffffu32 } else { at_least_one as u32 };
    Some(ms)
}

impl PipelineMetrics {
    pub fn new(
        buffered_samples: usize,
        capacity_samples: usize,
        underrun_sample_count: u64,
        dropped_sample_count: u64,
    ) -> (r: Self)
        ensures
            r == (PipelineMetrics {
                buffered_samples,
                capacity_samples,
                underrun_sample_count,
                dropped_sample_count,
            }),
    {
        PipelineMetrics {
            buffered_samples,
            capacity_samples,
            underrun_sample_count,
            dropped_sample_count,
        }
    }

    pub fn buffered_samples(self) -> (r: usize)
        ensures
            r == self.buffered_samples,
    {
        self.buffered_samples
    }

    pub fn capacity_samples(self) -> (r: usize)
        ensures
            r == self.capacity_samples,
    {
        self.capacity_samples
    }

    pub fn underrun_sample_count(self) -> (r: u64)
        ensures
            r == self.underrun_sample_count,
    {
        self.underrun_sample_count
    }

    pub fn dropped_sample_count(self) -> (r: u64)
        ensures
            r == self.dropped_sample_count,
    {
        self.dropped_sample_count
    }

    /// Milliseconds of audio in the buffer.
    pub fn buffered_latency_ms(self, format: AudioFrameFormat) -> (r: Option<u32>)
        ensures
            r == latency_ms(self.buffered_samples as nat, format),
    {
        samples_to_latency_ms(self.buffered_samples, format)
    }

    /// Milliseconds of audio the buffer can hold.
    pub fn capacity_latency_ms(self, format: AudioFrameFormat) -> (r: Option<u32>)
        ensures
            r == latency_ms(self.capacity_samples as nat, format),
    {
        samples_to_latency_ms(self.capacity_samples, format)
    }
}

impl Default for PipelineMetrics {
    fn default() -> (r: Self)
        ensures
            r == (PipelineMetrics {
                buffered_samples: 0,
                capacity_samples: 0,
                underrun_sample_count: 0,
                dropped_sample_count: 0,
            }),
    {
        PipelineMetrics::new(0, 0, 0, 0)
    }
}

// ---------------------------------------------------------------------------------------------
// Output target and runtime information
// ---------------------------------------------------------------------------------------------

/// Where the processed audio goes.
#[derive(Debug, Clone, PartialEq, Eq)]
pub enum AudioOutputTarget {
    AudioDevice(DeviceId),
    ClearLineVirtualMicrophone,
}

impl AudioOutputTarget {
    pub fn audio_device_id(&self) -> (r: Option<&DeviceId>)
        ensures
            match self {
                AudioOutputTarget::AudioDevice(id) => r == Some(id),
                AudioOutputTarget::ClearLineVirtualMicrophone => r is None,
            },
    {
        match self {
            AudioOutputTarget::AudioDevice(device_id) => Some(device_id),
            AudioOutputTarget::ClearLineVirtualMicrophone => None,
        }
    }

    pub fn is_clearline_virtual_microphone(&self) -> (r: bool)
        ensures
            r == (*self is ClearLineVirtualMicrophone),
    {
        match self {
            AudioOutputTarget::AudioDevice(_) => false,
            AudioOutputTarget::ClearLineVirtualMicrophone => true,
        }
    }
}

/// Formats, suppressor, echo stage and output of a running pipeline.
#[derive(Debug, Clone, PartialEq, Eq)]
pub struct PipelineRuntimeInfo {
    pub input_format: AudioFrameFormat,
    pub output_format: AudioFrameFormat,
    pub suppressor: SuppressorRuntimeInfo,
    pub echo_cancellation: EchoCancellerRuntimeInfo,
    pub wind_noise_reduction_enabled: bool,
    pub output_target: AudioOutputTarget,
}

impl PipelineRuntimeInfo {
    /// Runtime information with echo cancellation disabled on the input format and wind-noise
    /// reduction off.
    pub fn new(
        input_format: AudioFrameFormat,
        output_format: AudioFrameFormat,
        suppressor: SuppressorRuntimeInfo,
        output_target: AudioOutputTarget,
    ) -> (r: Self)
        ensures
            r == (PipelineRuntimeInfo {
                input_format,
                output_format,
                suppressor,
                echo_cancellation: EchoCancellerRuntimeInfo {
                    backend: EchoCancellerBackend::Disabled,
                    format: input_format,
                },
                wind_noise_reduction_enabled: false,
                output_target,
            }),
    {
        PipelineRuntimeInfo {
            input_format,
            output_format,
            suppressor,
            echo_cancellation: EchoCancellerRuntimeInfo::new(
                EchoCancellerBackend::Disabled,
                input_format,
            ),
            wind_noise_reduction_enabled: false,
            output_target,
        }
    }

    pub fn input_format(&self) -> (r: AudioFrameFormat)
        ensures
            r == self.input_format,
    {
        self.input_format
    }

    pub fn output_format(&self) -> (r: AudioFrameFormat)
        ensures
            r == self.output_format,
    {
        self.output_format
    }

    pub fn suppressor(&self) -> (r: SuppressorRuntimeInfo)
        ensures
            r == self.suppressor,
    {
        self.suppressor
    }

    pub fn with_echo_cancellation(self, echo_cancellation: EchoCancellerRuntimeInfo) -> (r: Self)
        ensures
            r == (PipelineRuntimeInfo { echo_cancellation, ..self }),
    {
        PipelineRuntimeInfo { echo_cancellation, ..self }
    }

    pub fn echo_cancellation(&self) -> (r: EchoCancellerRuntimeInfo)
        ensures
            r == self.echo_cancellation,
    {
        self.echo_cancellation
    }

    pub fn with_wind_noise_reduction(self, enabled: bool) -> (r: Self)
        ensures
            r == (PipelineRuntimeInfo { wind_noise_reduction_enabled: enabled, ..self }),
    {
        PipelineRuntimeInfo { wind_noise_reduction_enabled: enabled, ..self }
    }

    pub fn wind_noise_reduction_enabled(&self) -> (r: bool)
        ensures
            r == self.wind_noise_reduction_enabled,
    {
        self.wind_noise_reduction_enabled
    }

    pub fn output_target(&self) -> (r: &AudioOutputTarget)
        ensures
            *r == self.output_target,
    {
        &self.output_target
    }
}

// ---------------------------------------------------------------------------------------------
// Stream formats
// ---------------------------------------------------------------------------------------------

/// Sample rate and channel count of a device stream, each at least one.
#[derive(Debug, Clone, Copy, PartialEq, Eq, Structural)]
pub struct AudioStreamFormat {
    pub sample_rate_hz: u32,
    pub channels: u16,
}

impl AudioStreamFormat {
    pub fn new(sample_rate_hz: u32, channels: u16) -> (r: Self)
        ensures
            r.sample_rate_hz == if sample_rate_hz >= 1 { sample_rate_hz } else { 1 },
            r.channels == if channels >= 1 { channels } else { 1 },
    {
        AudioStreamFormat {
            sample_rate_hz: if sample_rate_hz >= 1 { sample_rate_hz } else { 1 },
            channels: if channels >= 1 { channels } else { 1 },
        }
    }
}

/// The output stream runs at the input's sample rate with the output device's channels.
pub fn passthrough_output_format(input: AudioStreamFormat, output_default: AudioStreamFormat) -> (r:
    AudioStreamFormat)
    ensures
        r.sample_rate_hz == if input.sample_rate_hz >= 1 { input.sample_rate_hz } else { 1 },
        r.channels == if output_default.channels >= 1 { output_default.channels } else { 1 },
{
    AudioStreamFormat::new(input.sample_rate_hz, output_default.channels)
}

/// The text of the error for a virtual-microphone driver with another format.
pub open spec fn virtual_microphone_format_text(sample_rate_hz: u32, channels: u32) -> Seq<char> {
    "ClearLine Virtual Microphone expects 48000 Hz / 1 channel, driver reported "@ + decimal(
        sample_rate_hz as nat,
    ) + " Hz / "@ + decimal(channels as nat) + " channel(s)"@
}

/// The stream format that the virtual-microphone driver must report: 48 kHz mono.
pub fn clearline_virtual_microphone_output_format(sample_rate_hz: u32, channels: u32) -> (r: Result<
    AudioStreamFormat,
    ClearLineError,
>)
    ensures
        (sample_rate_hz == 48_000 && channels == 1) ==> r == Ok::<AudioStreamFormat, ClearLineError>(
            AudioStreamFormat { sample_rate_hz: 48_000, channels: 1 },
        ),
        !(sample_rate_hz == 48_000 && channels == 1) ==> (r matches Err(ClearLineError::StreamBuild(m))
            && m@ == virtual_microphone_format_text(sample_rate_hz, channels)),
{
    if sample_rate_hz != 48_000 || channels != 1 {
        let mut m = String::from_str(
            "ClearLine Virtual Microphone expects 48000 Hz / 1 channel, driver reported ",
        );
        push_decimal(&mut m, sample_rate_hz as u64);
        m.append(" Hz / ");
        push_decimal(&mut m, channels as u64);
        m.append(" channel(s)");
        return Err(ClearLineError::StreamBuild(m));
    }
    Ok(AudioStreamFormat::new(48_000, 1))
}

/// Interleaved samples per second of a device stream, as configured.
pub open spec fn stream_samples_per_second(format: AudioStreamFormat) -> int {
    format.sample_rate_hz as int * format.channels as int
}

/// The output buffer holds two seconds of the faster of the two streams (at least two samples).
pub open spec fn buffer_capacity_for(input: AudioStreamFormat, output: AudioStreamFormat) -> int {
    let i = stream_samples_per_second(input);
    let o = stream_samples_per_second(output);
    let m = if i >= o { i } else { o };
    (if m >= 1 { m } else { 1 }) * 2
}

/// Output playback waits for 20 ms of audio (at least one sample) before it starts.
pub open spec fn prebuffer_for(output: AudioStreamFormat) -> int {
    let p = stream_samples_per_second(output) / 50;
    if p >= 1 { p } else { 1 }
}

/// The format the output stream is opened with: the input's rate, the device's channels.
pub open spec fn passthrough_format(input: AudioStreamFormat, output_default: AudioStreamFormat) -> AudioStreamFormat {
    AudioStreamFormat {
        sample_rate_hz: if input.sample_rate_hz >= 1 { input.sample_rate_hz } else { 1 },
        channels: if output_default.channels >= 1 { output_default.channels } else { 1 },
    }
}

fn samples_per_second_u64(format: AudioStreamFormat) -> (r: u64)
    ensures
        r == stream_samples_per_second(format),
{
    let rate = format.sample_rate_hz as u64;
    let channels = format.channels as u64;
    assert(rate * channels <= 0xffff_ffff_u64 * 0xffff_u64) by (nonlinear_arith)
        requires
            rate <= 0xffff_ffff_u64,
            channels <= 0xffff_u64,
    ;
    rate * channels
}

/// Capacity of the sample buffer between the input and output streams.
pub fn buffer_capacity_samples(input: AudioStreamFormat, output: AudioStreamFormat) -> (r: usize)
    requires
        buffer_capacity_for(input, output) <= usize::MAX,
    ensures
        r == buffer_capacity_for(input, output),
{
    let i = samples_per_second_u64(input);
    let o = samples_per_second_u64(output);
    let m = if i >= o { i } else { o };
    let m = if m >= 1 { m } else { 1 };
    (m as usize) * 2
}

/// Samples the output stream waits for before it leaves the prebuffering state.
pub fn startup_prebuffer_samples(output: AudioStreamFormat) -> (r: usize)
    requires
        stream_samples_per_second(output) <= usize::MAX,
    ensures
        r == prebuffer_for(output),
{
    let p = samples_per_second_u64(output) / 50;
    if p >= 1 { p as usize } else { 1 }
}

/// How the passthrough streams are opened: the output format and the sizes of the buffer
/// between them.
#[derive(Debug, Clone, Copy, PartialEq, Eq, Structural)]
pub struct PassthroughStreamPlan {
    pub output_format: AudioStreamFormat,
    pub buffer_capacity_samples: usize,
    pub prebuffer_samples: usize,
}

/// Plans the passthrough streams from the input stream and the output device's default format.
pub fn plan_passthrough_streams(input: AudioStreamFormat, output_default: AudioStreamFormat) -> (r:
    PassthroughStreamPlan)
    requires
        buffer_capacity_for(input, passthrough_format(input, output_default)) <= usize::MAX,
    ensures
        r.output_format == passthrough_format(input, output_default),
        r.buffer_capacity_samples == buffer_capacity_for(input, r.output_format),
        r.prebuffer_samples == prebuffer_for(r.output_format),
        r.prebuffer_samples <= r.buffer_capacity_samples,
{
    let output_format = passthrough_output_format(input, output_default);
    let capacity = buffer_capacity_samples(input, output_format);
    let prebuffer = startup_prebuffer_samples(output_format);
    PassthroughStreamPlan {
        output_format,
        buffer_capacity_samples: capacity,
        prebuffer_samples: prebuffer,
    }
}

/// The text of the error for an input stream whose rate the virtual microphone cannot take.
pub open spec fn virtual_microphone_input_rate_text(sample_rate_hz: u32) -> Seq<char> {
    "ClearLine Virtual Microphone output currently requires a 48000 Hz input stream; selected input uses "@
        + decimal(sample_rate_hz as nat) + " Hz"@
}

/// The virtual microphone takes the input stream unresampled, so the rates must agree.
pub fn check_virtual_microphone_input_rate(input: AudioStreamFormat, output: AudioStreamFormat) -> (r:
    Result<(), ClearLineError>)
    ensures
        (input.sample_rate_hz == output.sample_rate_hz) <==> r is Ok,
        input.sample_rate_hz != output.sample_rate_hz ==> (r matches Err(ClearLineError::StreamBuild(m))
            && m@ == virtual_microphone_input_rate_text(input.sample_rate_hz)),
{
    if input.sample_rate_hz != output.sample_rate_hz {
        let mut m = String::from_str(
            "ClearLine Virtual Microphone output currently requires a 48000 Hz input stream; selected input uses ",
        );
        push_decimal(&mut m, input.sample_rate_hz as u64);
        m.append(" Hz");
        return Err(ClearLineError::StreamBuild(m));
    }
    Ok(())
}

// ---------------------------------------------------------------------------------------------
// Configuration
// ---------------------------------------------------------------------------------------------

/// What the pipeline is asked to run.
#[derive(Debug, Clone, PartialEq, Eq)]
pub struct AudioPipelineConfig {
    pub input_device_id: DeviceId,
    pub output_target: AudioOutputTarget,
    pub suppressor_mode: SuppressorMode,
    pub suppression_strength: SuppressionStrength,
    pub wind_noise_reduction_enabled: bool,
    pub echo_cancellation_enabled: bool,
    pub deepfilternet_model_bundle: Option<DeepFilterNetModelBundle>,
}

impl AudioPipelineConfig {
    /// A configuration that plays to an output device, balanced strength, all extras off.
    pub fn new(
        input_device_id: DeviceId,
        output_device_id: DeviceId,
        suppressor_mode: SuppressorMode,
    ) -> (r: Self)
        ensures
            r == (AudioPipelineConfig {
                input_device_id,
                output_target: AudioOutputTarget::AudioDevice(output_device_id),
                suppressor_mode,
                suppression_strength: SuppressionStrength::Balanced,
                wind_noise_reduction_enabled: false,
                echo_cancellation_enabled: false,
                deepfilternet_model_bundle: None,
            }),
    {
        AudioPipelineConfig {
            input_device_id,
            output_target: AudioOutputTarget::AudioDevice(output_device_id),
            suppressor_mode,
            suppression_strength: SuppressionStrength::Balanced,
            wind_noise_reduction_enabled: false,
            echo_cancellation_enabled: false,
            deepfilternet_model_bundle: None,
        }
    }

    /// A configuration that writes to the ClearLine virtual microphone.
    pub fn for_virtual_microphone(input_device_id: DeviceId, suppressor_mode: SuppressorMode) -> (r:
        Self)
        ensures
            r == (AudioPipelineConfig {
                input_device_id,
                output_target: AudioOutputTarget::ClearLineVirtualMicrophone,
                suppressor_mode,
                suppression_strength: SuppressionStrength::Balanced,
                wind_noise_reduction_enabled: false,
                echo_cancellation_enabled: false,
                deepfilternet_model_bundle: None,
            }),
    {
        AudioPipelineConfig {
            input_device_id,
            output_target: AudioOutputTarget::ClearLineVirtualMicrophone,
            suppressor_mode,
            suppression_strength: SuppressionStrength::Balanced,
            wind_noise_reduction_enabled: false,
            echo_cancellation_enabled: false,
            deepfilternet_model_bundle: None,
        }
    }

    pub fn input_device_id(&self) -> (r: &DeviceId)
        ensures
            *r == self.input_device_id,
    {
        &self.input_device_id
    }

    pub fn output_device_id(&self) -> (r: Option<&DeviceId>)
        ensures
            match self.output_target {
                AudioOutputTarget::AudioDevice(id) => r == Some(&id),
                AudioOutputTarget::ClearLineVirtualMicrophone => r is None,
            },
    {
        self.output_target.audio_device_id()
    }

    pub fn output_target(&self) -> (r: &AudioOutputTarget)
        ensures
            *r == self.output_target,
    {
        &self.output_target
    }

    pub fn suppressor_mode(&self) -> (r: SuppressorMode)
        ensures
            r == self.suppressor_mode,
    {
        self.suppressor_mode
    }

    pub fn suppression_strength(&self) -> (r: SuppressionStrength)
        ensures
            r == self.suppression_strength,
    {
        self.suppression_strength
    }

    pub fn with_suppression_strength(self, strength: SuppressionStrength) -> (r: Self)
        ensures
            r == (AudioPipelineConfig { suppression_strength: strength, ..self }),
    {
        AudioPipelineConfig { suppression_strength: strength, ..self }
    }

    pub fn with_wind_noise_reduction(self, enabled: bool) -> (r: Self)
        ensures
            r == (AudioPipelineConfig { wind_noise_reduction_enabled: enabled, ..self }),
    {
        AudioPipelineConfig { wind_noise_reduction_enabled: enabled, ..self }
    }

    pub fn wind_noise_reduction_enabled(&self) -> (r: bool)
        ensures
            r == self.wind_noise_reduction_enabled,
    {
        self.wind_noise_reduction_enabled
    }

    pub fn with_echo_cancellation(self, enabled: bool) -> (r: Self)
        ensures
            r == (AudioPipelineConfig { echo_cancellation_enabled: enabled, ..self }),
    {
        AudioPipelineConfig { echo_cancellation_enabled: enabled, ..self }
    }

    pub fn echo_cancellation_enabled(&self) -> (r: bool)
        ensures
            r == self.echo_cancellation_enabled,
    {
        self.echo_cancellation_enabled
    }

    pub fn with_deepfilternet_model_bundle(self, bundle: DeepFilterNetModelBundle) -> (r: Self)
        ensures
            r == (AudioPipelineConfig { deepfilternet_model_bundle: Some(bundle), ..self }),
    {
        AudioPipelineConfig { deepfilternet_model_bundle: Some(bundle), ..self }
    }

    pub fn deepfilternet_model_bundle(&self) -> (r: Option<&DeepFilterNetModelBundle>)
        ensures
            match self.deepfilternet_model_bundle {
                Some(b) => r == Some(&b),
                None => r is None,
            },
    {
        match &self.deepfilternet_model_bundle {
            Some(b) => Some(b),
            None => None,
        }
    }
}

// ---------------------------------------------------------------------------------------------
// The pipeline state machine
// ---------------------------------------------------------------------------------------------

/// Lifecycle of the pipeline.
#[derive(Debug, Clone, PartialEq, Eq)]
pub enum PipelineState {
    Stopped,
    Starting,
    Running,
    Error(String),
}

impl PipelineState {
    pub fn is_running(&self) -> (r: bool)
        ensures
            r == (*self is Running),
    {
        match self {
            PipelineState::Running => true,
            _ => false,
        }
    }
}

/// The pipeline's state, the configuration it runs and what its streams report.  The audio
/// streams themselves are opened by the caller between `begin_start` and `finish_start`.
pub struct AudioPipeline {
    pub state: PipelineState,
    pub config: Option<AudioPipelineConfig>,
    pub runtime_info: Option<PipelineRuntimeInfo>,
}

/// Whether a pipeline in state `s` refuses to start.
pub open spec fn is_busy(s: PipelineState) -> bool {
    s is Starting || s is Running
}

impl AudioPipeline {
    /// A stopped pipeline with nothing configured.
    pub fn new() -> (r: Self)
        ensures
            r.state == PipelineState::Stopped,
            r.config is None,
            r.runtime_info is None,
    {
        AudioPipeline { state: PipelineState::Stopped, config: None, runtime_info: None }
    }

    pub fn state(&self) -> (r: &PipelineState)
        ensures
            *r == self.state,
    {
        &self.state
    }

    pub fn config(&self) -> (r: Option<&AudioPipelineConfig>)
        ensures
            match self.config {
                Some(c) => r == Some(&c),
                None => r is None,
            },
    {
        match &self.config {
            Some(c) => Some(c),
            None => None,
        }
    }

    pub fn runtime_info(&self) -> (r: Option<&PipelineRuntimeInfo>)
        ensures
            match self.runtime_info {
                Some(i) => r == Some(&i),
                None => r is None,
            },
    {
        match &self.runtime_info {
            Some(i) => Some(i),
            None => None,
        }
    }

    /// First half of `start`: refuses while starting or running, and otherwise enters
    /// `Starting`.
    pub fn begin_start(&mut self) -> (r: Result<(), ClearLineError>)
        ensures
            is_busy(old(self).state) ==> r == Err::<(), ClearLineError>(
                ClearLineError::PipelineAlreadyRunning,
            ) && *final(self) == *old(self),
            !is_busy(old(self).state) ==> r is Ok && final(self).state == PipelineState::Starting
                && final(self).config == old(self).config && final(self).runtime_info == old(
                self,
            ).runtime_info,
    {
        match self.state {
            PipelineState::Starting | PipelineState::Running => {
                return Err(ClearLineError::PipelineAlreadyRunning);
            },
            _ => {},
        }
        self.state = PipelineState::Starting;
        Ok(())
    }

    /// Second half of `start`: on success runs `config` with the streams' runtime
    /// information; on failure records the error and returns it.
    pub fn finish_start(
        &mut self,
        config: AudioPipelineConfig,
        streams: Result<Option<PipelineRuntimeInfo>, ClearLineError>,
    ) -> (r: Result<(), ClearLineError>)
        ensures
            match streams {
                Ok(info) => r is Ok && final(self).state == PipelineState::Running
                    && final(self).config == Some(config) && final(self).runtime_info == info,
                Err(e) => r == Err::<(), ClearLineError>(e) && final(self).config is None
                    && final(self).runtime_info is None && (final(self).state matches PipelineState::Error(m)
                    && m@ == error_text(e)),
            },
    {
        match streams {
            Ok(info) => {
                self.config = Some(config);
                self.runtime_info = info;
                self.state = PipelineState::Running;
                Ok(())
            },
            Err(error) => {
                self.fail(error.message());
                Err(error)
            },
        }
    }

    /// Starts a pipeline whose streams need no device: refuses while starting or running and
    /// otherwise runs `config`.
    pub fn start(&mut self, config: AudioPipelineConfig) -> (r: Result<(), ClearLineError>)
        ensures
            is_busy(old(self).state) ==> r == Err::<(), ClearLineError>(
                ClearLineError::PipelineAlreadyRunning,
            ) && *final(self) == *old(self),
            !is_busy(old(self).state) ==> r is Ok && final(self).state == PipelineState::Running
                && final(self).config == Some(config) && final(self).runtime_info == old(
                self,
            ).runtime_info,
    {
        match self.begin_start() {
            Err(e) => Err(e),
            Ok(()) => {
                let info = self.runtime_info.take();
                self.finish_start(config, Ok(info))
            },
        }
    }

    /// Stops the pipeline and forgets its configuration.
    pub fn stop(&mut self)
        ensures
            final(self).state == PipelineState::Stopped,
            final(self).config is None,
            final(self).runtime_info is None,
    {
        self.config = None;
        self.runtime_info = None;
        self.state = PipelineState::Stopped;
    }

    /// Stops the pipeline and records why.
    pub fn fail(&mut self, message: String)
        ensures
            final(self).state == PipelineState::Error(message),
            final(self).config is None,
            final(self).runtime_info is None,
    {
        self.config = None;
        self.runtime_info = None;
        self.state = PipelineState::Error(message);
    }
}

} // verus!
