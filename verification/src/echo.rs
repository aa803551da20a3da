//! What the echo-cancellation stage reports about itself.
use vstd::prelude::*;
use crate::suppressor::AudioFrameFormat;

verus! {

/// The echo canceller that runs.
#[derive(Debug, Clone, Copy, PartialEq, Eq, Structural)]
pub enum EchoCancellerBackend {
    Disabled,
    Aec3,
}

/// The backend of the echo-cancellation stage and the format it runs on.
#[derive(Debug, Clone, Copy, PartialEq, Eq, Structural)]
pub struct EchoCancellerRuntimeInfo {
    pub backend: EchoCancellerBackend,
    pub format: AudioFrameFormat,
}

impl EchoCancellerRuntimeInfo {
    pub fn new(backend: EchoCancellerBackend, format: AudioFrameFormat) -> (r: Self)
        ensures
            r.backend == backend,
            r.format == format,
    {
        EchoCancellerRuntimeInfo { backend, format }
    }

    pub fn backend(&self) -> (r: EchoCancellerBackend)
        ensures
            r == self.backend,
    {
        self.backend
    }

    pub fn format(&self) -> (r: AudioFrameFormat)
        ensures
            r == self.format,
    {
        self.format
    }
}

/// The echo stage that copies the capture unchanged.
#[derive(Debug, Clone, Copy)]
pub struct NoopEchoCanceller {
    pub format: AudioFrameFormat,
}

impl NoopEchoCanceller {
    pub fn new(format: AudioFrameFormat) -> (r: Self)
        ensures
            r.format == format,
    {
        NoopEchoCanceller { format }
    }

    /// A disabled echo stage on its format.
    pub fn runtime_info(&self) -> (r: EchoCancellerRuntimeInfo)
        ensures
            r.backend == EchoCancellerBackend::Disabled,
            r.format == self.format,
    {
        EchoCancellerRuntimeInfo::new(EchoCancellerBackend::Disabled, self.format)
    }
}

/// Loopback reference capture runs only for the AEC3 backend.
pub fn needs_reference_capture(info: EchoCancellerRuntimeInfo) -> (r: bool)
    ensures
        r == (info.backend == EchoCancellerBackend::Aec3),
{
    info.backend == EchoCancellerBackend::Aec3
}

/// The echo stage that a pipeline builds: AEC3 when it is asked for and the build carries it,
/// a disabled stage otherwise.
pub fn planned_echo_backend(enabled: bool, aec_built: bool) -> (r: EchoCancellerBackend)
    ensures
        r == if enabled && aec_built {
            EchoCancellerBackend::Aec3
        } else {
            EchoCancellerBackend::Disabled
        },
{
    if enabled && aec_built {
        EchoCancellerBackend::Aec3
    } else {
        EchoCancellerBackend::Disabled
    }
}

/// Samples in one 10 ms frame of `format` (at least one frame per second and one channel).
pub open spec fn ten_ms_frame_samples(format: AudioFrameFormat) -> int {
    let per_channel: int = if format.sample_rate_hz / 100 == 0 { 1 } else { (format.sample_rate_hz / 100) as int };
    let channels: int = if format.channels == 0 { 1 } else { format.channels as int };
    per_channel * channels
}

/// The frame size the echo canceller works in: 10 ms of interleaved audio.
pub fn ten_ms_frame_size(format: AudioFrameFormat) -> (r: usize)
    requires
        ten_ms_frame_samples(format) <= usize::MAX,
    ensures
        r == ten_ms_frame_samples(format),
{
    let rate = format.sample_rate_hz() / 100;
    let per_channel: u32 = if rate == 0 { 1 } else { rate };
    let channels: u16 = if format.channels() == 0 { 1 } else { format.channels() };
    (per_channel as usize) * (channels as usize)
}

/// How diagnostics name an echo backend.
pub fn backend_label(backend: EchoCancellerBackend) -> (r: &'static str)
    ensures
        r@ == match backend {
            EchoCancellerBackend::Disabled => "Disabled"@,
            EchoCancellerBackend::Aec3 => "AEC3"@,
        },
{
    match backend {
        EchoCancellerBackend::Disabled => "Disabled",
        EchoCancellerBackend::Aec3 => "AEC3",
    }
}

} // verus!
