//! The library's error type and the text it is shown with.
use vstd::prelude::*;
use vstd::string::*;
use crate::text::{decimal, push_decimal};

verus! {

broadcast use vstd::string::group_string_axioms;

/// What went wrong in the audio engine.
#[derive(Debug, Clone, PartialEq, Eq)]
pub enum ClearLineError {
    DeviceEnumeration(String),
    DeviceNotFound(String),
    StreamBuild(String),
    StreamPlay(String),
    UnsupportedSampleFormat(String),
    BufferSizeMismatch { input: usize, output: usize },
    ModelAssetMissing { path: String },
    ModelLoad(String),
    ModelInference(String),
    PipelineAlreadyRunning,
    EchoCancellation(String),
    VirtualMicControl(String),
}

/// The text of an error, as it is displayed.
pub open spec fn error_text(e: ClearLineError) -> Seq<char> {
    match e {
        ClearLineError::DeviceEnumeration(s) => "failed to enumerate audio input devices: "@ + s@,
        ClearLineError::DeviceNotFound(s) => "audio device not found: "@ + s@,
        ClearLineError::StreamBuild(s) => "failed to build audio stream: "@ + s@,
        ClearLineError::StreamPlay(s) => "failed to start audio stream: "@ + s@,
        ClearLineError::UnsupportedSampleFormat(s) => "unsupported audio sample format: "@ + s@,
        ClearLineError::BufferSizeMismatch { input, output } =>
            "input and output buffers have different lengths: input "@ + decimal(input as nat)
                + ", output "@ + decimal(output as nat),
        ClearLineError::ModelAssetMissing { path } => "required model asset is missing: "@ + path@,
        ClearLineError::ModelLoad(s) => "failed to load model: "@ + s@,
        ClearLineError::ModelInference(s) => "model inference failed: "@ + s@,
        ClearLineError::PipelineAlreadyRunning => "audio pipeline is already running"@,
        ClearLineError::EchoCancellation(s) => "echo cancellation failed: "@ + s@,
        ClearLineError::VirtualMicControl(s) => "virtual microphone control failed: "@ + s@,
    }
}

fn prefixed(prefix: &str, s: &String) -> (r: String)
    ensures
        r@ == prefix@ + s@,
{
    let mut r = String::from_str(prefix);
    r.append(s.as_str());
    r
}

impl ClearLineError {
    /// The text of the error.
    pub fn message(&self) -> (r: String)
        ensures
            r@ == error_text(*self),
    {
        match self {
            ClearLineError::DeviceEnumeration(s) => prefixed(
                "failed to enumerate audio input devices: ",
                s,
            ),
            ClearLineError::DeviceNotFound(s) => prefixed("audio device not found: ", s),
            ClearLineError::StreamBuild(s) => prefixed("failed to build audio stream: ", s),
            ClearLineError::StreamPlay(s) => prefixed("failed to start audio stream: ", s),
            ClearLineError::UnsupportedSampleFormat(s) => prefixed(
                "unsupported audio sample format: ",
                s,
            ),
            ClearLineError::BufferSizeMismatch { input, output } => {
                let mut r = String::from_str("input and output buffers have different lengths: input ");
                push_decimal(&mut r, *input as u64);
                r.append(", output ");
                push_decimal(&mut r, *output as u64);
                r
            },
            ClearLineError::ModelAssetMissing { path } => prefixed(
                "required model asset is missing: ",
                path,
            ),
            ClearLineError::ModelLoad(s) => prefixed("failed to load model: ", s),
            ClearLineError::ModelInference(s) => prefixed("model inference failed: ", s),
            ClearLineError::PipelineAlreadyRunning => String::from_str(
                "audio pipeline is already running",
            ),
            ClearLineError::EchoCancellation(s) => prefixed("echo cancellation failed: ", s),
            ClearLineError::VirtualMicControl(s) => prefixed(
                "virtual microphone control failed: ",
                s,
            ),
        }
    }
}

} // verus!
