//! The Chinese texts that the desktop application shows for the pipeline's state.
use vstd::prelude::*;
use vstd::string::*;
use crate::app_state::AppTab;
use crate::device::{AudioInputDevice, AudioOutputDevice};
use crate::echo::EchoCancellerBackend;
use crate::pipeline::{latency_ms, PipelineMetrics, PipelineRuntimeInfo, PipelineState};
use crate::suppressor::{
    AudioFrameFormat, SuppressionStrength, SuppressorMode, SuppressorWorkerDiagnostics,
};
use crate::text::{decimal, push_decimal, str_eq, trim, is_blank};

verus! {

broadcast use vstd::string::group_string_axioms;

pub open spec fn mode_text(mode: SuppressorMode) -> Seq<char> {
    match mode {
        SuppressorMode::Bypass => "无降噪"@,
        SuppressorMode::LowLatency => "低延迟降噪"@,
        SuppressorMode::HighQuality => "高质量降噪"@,
    }
}

pub fn mode_label(mode: SuppressorMode) -> (r: &'static str)
    ensures
        r@ == mode_text(mode),
{
    match mode {
        SuppressorMode::Bypass => "无降噪",
        SuppressorMode::LowLatency => "低延迟降噪",
        SuppressorMode::HighQuality => "高质量降噪",
    }
}

pub open spec fn strength_text(strength: SuppressionStrength) -> Seq<char> {
    match strength {
        SuppressionStrength::Gentle => "柔和"@,
        SuppressionStrength::Balanced => "标准"@,
        SuppressionStrength::Strong => "强力"@,
    }
}

pub fn strength_button_label(strength: SuppressionStrength) -> (r: &'static str)
    ensures
        r@ == strength_text(strength),
{
    match strength {
        SuppressionStrength::Gentle => "柔和",
        SuppressionStrength::Balanced => "标准",
        SuppressionStrength::Strong => "强力",
    }
}

pub fn selected_strength_label(strength: SuppressionStrength) -> (r: &'static str)
    ensures
        r@ == strength_text(strength),
{
    strength_button_label(strength)
}

pub fn tab_label(tab: AppTab) -> (r: &'static str)
    ensures
        r@ == match tab {
            AppTab::Device => "设备"@,
            AppTab::Status => "状态"@,
        },
{
    match tab {
        AppTab::Device => "设备",
        AppTab::Status => "状态",
    }
}

pub fn pipeline_state_label(state: &PipelineState) -> (r: String)
    ensures
        r@ == match *state {
            PipelineState::Stopped => "已停止"@,
            PipelineState::Starting => "启动中"@,
            PipelineState::Running => "运行中"@,
            PipelineState::Error(m) => "错误："@ + m@,
        },
{
    match state {
        PipelineState::Stopped => String::from_str("已停止"),
        PipelineState::Starting => String::from_str("启动中"),
        PipelineState::Running => String::from_str("运行中"),
        PipelineState::Error(message) => {
            let mut r = String::from_str("错误：");
            r.append(message.as_str());
            r
        },
    }
}

pub fn noise_suppression_config_label(enabled: bool) -> (r: &'static str)
    ensures
        r@ == if enabled { "降噪：开启"@ } else { "降噪：关闭"@ },
{
    if enabled { "降噪：开启" } else { "降噪：关闭" }
}

pub fn wind_reduction_config_label(enabled: bool) -> (r: &'static str)
    ensures
        r@ == if enabled { "抗风噪增强：开启"@ } else { "抗风噪增强：关闭"@ },
{
    if enabled { "抗风噪增强：开启" } else { "抗风噪增强：关闭" }
}

pub fn echo_cancellation_title() -> (r: &'static str)
    ensures
        r@ == "回音消除"@,
{
    "回音消除"
}

pub fn echo_cancellation_config_label(enabled: bool) -> (r: &'static str)
    ensures
        r@ == if enabled { "回音消除：开启"@ } else { "回音消除：关闭"@ },
{
    if enabled { "回音消除：开启" } else { "回音消除：关闭" }
}

pub fn mode_card_subtitle() -> (r: &'static str)
    ensures
        r@ == Seq::<char>::empty(),
{
    proof {
        reveal_strlit("");
    }
    ""
}

pub fn default_recording_device_title() -> (r: &'static str)
    ensures
        r@ == "Windows 默认录音设备"@,
{
    "Windows 默认录音设备"
}

pub fn default_recording_device_message() -> (r: &'static str)
    ensures
        r@ == "如需让 Discord、微信、QQ、浏览器会议等应用使用降噪后的声音，请在 Windows 中把 CABLE Output 设为默认录音设备。"@,
{
    "如需让 Discord、微信、QQ、浏览器会议等应用使用降噪后的声音，请在 Windows 中把 CABLE Output 设为默认录音设备。"
}

pub fn open_sound_settings_button_label() -> (r: &'static str)
    ensures
        r@ == "打开声音设置"@,
{
    "打开声音设置"
}

pub fn sound_settings_opened_status() -> (r: &'static str)
    ensures
        r@ == "已打开 Windows 声音设置"@,
{
    "已打开 Windows 声音设置"
}

pub fn sound_settings_open_failed_status(error: &str) -> (r: String)
    ensures
        r@ == "打开 Windows 声音设置失败："@ + error@,
{
    let mut r = String::from_str("打开 Windows 声音设置失败：");
    r.append(error);
    r
}

pub fn buffer_health_label(underrun_sample_count: u64, dropped_sample_count: u64) -> (r: &'static str)
    ensures
        r@ == if underrun_sample_count > 0 {
            "曾发生欠载"@
        } else if dropped_sample_count > 0 {
            "曾发生溢出"@
        } else {
            "稳定"@
        },
{
    if underrun_sample_count > 0 {
        "曾发生欠载"
    } else if dropped_sample_count > 0 {
        "曾发生溢出"
    } else {
        "稳定"
    }
}

/// `o`, or zero.
pub open spec fn or_zero(o: Option<u32>) -> u32 {
    match o {
        Some(v) => v,
        None => 0,
    }
}

pub open spec fn buffer_latency_text(metrics: PipelineMetrics, info: Option<PipelineRuntimeInfo>) -> Seq<char> {
    match info {
        None => "未运行"@,
        Some(i) => if metrics.capacity_samples == 0 {
            "未运行"@
        } else {
            match latency_ms(metrics.capacity_samples as nat, i.output_format) {
                None => "未运行"@,
                Some(cap) => "约 "@ + decimal(or_zero(latency_ms(metrics.buffered_samples as nat, i.output_format)) as nat)
                    + "ms / 上限 "@ + decimal(cap as nat) + "ms"@,
            }
        },
    }
}

pub open spec fn opt_info(info: Option<&PipelineRuntimeInfo>) -> Option<PipelineRuntimeInfo> {
    match info {
        Some(i) => Some(*i),
        None => None,
    }
}

/// Current and maximal buffering delay.
pub fn buffer_latency_label(metrics: PipelineMetrics, runtime_info: Option<&PipelineRuntimeInfo>) -> (r: String)
    ensures
        r@ == buffer_latency_text(metrics, opt_info(runtime_info)),
{
    let info = match runtime_info {
        Some(i) => i,
        None => return String::from_str("未运行"),
    };
    if metrics.capacity_samples() == 0 {
        return String::from_str("未运行");
    }
    let output_format = info.output_format();
    let current_ms = match metrics.buffered_latency_ms(output_format) {
        Some(v) => v,
        None => 0,
    };
    let capacity_ms = match metrics.capacity_latency_ms(output_format) {
        Some(v) => v,
        None => return String::from_str("未运行"),
    };
    let mut r = String::from_str("约 ");
    push_decimal(&mut r, current_ms as u64);
    r.append("ms / 上限 ");
    push_decimal(&mut r, capacity_ms as u64);
    r.append("ms");
    r
}

/// The suppressor frame in milliseconds of input; nothing without a fixed frame.
pub open spec fn algorithm_latency(info: PipelineRuntimeInfo) -> Option<u32> {
    if info.suppressor.frame_size_samples == 0 {
        None
    } else {
        latency_ms(info.suppressor.frame_size_samples as nat, info.input_format)
    }
}

pub fn algorithm_latency_ms_value(info: &PipelineRuntimeInfo) -> (r: Option<u32>)
    ensures
        r == algorithm_latency(*info),
{
    let frame_size_samples = info.suppressor().frame_size_samples();
    if frame_size_samples == 0 {
        return None;
    }
    PipelineMetrics::new(frame_size_samples, frame_size_samples, 0, 0).buffered_latency_ms(
        info.input_format(),
    )
}

pub open spec fn algorithm_latency_text(info: Option<PipelineRuntimeInfo>) -> Seq<char> {
    match info {
        None => "未连接音频流"@,
        Some(i) => match algorithm_latency(i) {
            None => "无固定算法帧"@,
            Some(ms) => "约 "@ + decimal(ms as nat) + "ms（"@ + mode_text(i.suppressor.mode) + "）"@,
        },
    }
}

/// Delay that the suppressor's frame adds.
pub fn algorithm_latency_label(runtime_info: Option<&PipelineRuntimeInfo>) -> (r: String)
    ensures
        r@ == algorithm_latency_text(opt_info(runtime_info)),
{
    let info = match runtime_info {
        Some(i) => i,
        None => return String::from_str("未连接音频流"),
    };
    let latency = match algorithm_latency_ms_value(info) {
        Some(v) => v,
        None => return String::from_str("无固定算法帧"),
    };
    let mut r = String::from_str("约 ");
    push_decimal(&mut r, latency as u64);
    r.append("ms（");
    r.append(mode_label(info.suppressor().mode()));
    r.append("）");
    r
}

pub open spec fn buffer_diagnostic_text(metrics: PipelineMetrics, info: Option<PipelineRuntimeInfo>) -> Seq<char> {
    match info {
        None => "启动后显示诊断"@,
        Some(i) => if metrics.capacity_samples == 0 {
            "启动后显示诊断"@
        } else if metrics.underrun_sample_count > 0 {
            "曾发生欠载：可能听到断续"@
        } else if metrics.dropped_sample_count > 0 {
            "曾发生溢出：输入一度快于输出"@
        } else {
            let current = or_zero(latency_ms(metrics.buffered_samples as nat, i.output_format));
            let algorithm = or_zero(algorithm_latency(i));
            if current >= 250 {
                "缓冲偏高：延迟可能明显"@
            } else if algorithm > 0 && current < algorithm {
                "缓冲较低：延迟低，注意观察欠载"@
            } else {
                "稳定：延迟和缓冲正常"@
            }
        },
    }
}

/// A one-line judgement of the output buffer.
pub fn buffer_diagnostic_label(metrics: PipelineMetrics, runtime_info: Option<&PipelineRuntimeInfo>) -> (r: String)
    ensures
        r@ == buffer_diagnostic_text(metrics, opt_info(runtime_info)),
{
    let info = match runtime_info {
        Some(i) => i,
        None => return String::from_str("启动后显示诊断"),
    };
    if metrics.capacity_samples() == 0 {
        return String::from_str("启动后显示诊断");
    }
    if metrics.underrun_sample_count() > 0 {
        return String::from_str("曾发生欠载：可能听到断续");
    }
    if metrics.dropped_sample_count() > 0 {
        return String::from_str("曾发生溢出：输入一度快于输出");
    }
    let current_ms = match metrics.buffered_latency_ms(info.output_format()) {
        Some(v) => v,
        None => 0,
    };
    let algorithm_ms = match algorithm_latency_ms_value(info) {
        Some(v) => v,
        None => 0,
    };
    if current_ms >= 250 {
        String::from_str("缓冲偏高：延迟可能明显")
    } else if algorithm_ms > 0 && current_ms < algorithm_ms {
        String::from_str("缓冲较低：延迟低，注意观察欠载")
    } else {
        String::from_str("稳定：延迟和缓冲正常")
    }
}

/// Version, build profile and commit of the running program.
#[derive(Debug, Clone, Copy, PartialEq, Eq)]
pub struct BuildInfo {
    pub version: &'static str,
    pub profile: &'static str,
    pub commit: &'static str,
}

impl BuildInfo {
    pub fn new(version: &'static str, profile: &'static str, commit: &'static str) -> (r: Self)
        ensures
            r.version@ == version@,
            r.profile@ == profile@,
            r.commit@ == commit@,
    {
        BuildInfo { version, profile, commit }
    }

    /// The commit, or `unknown` when it is blank.
    pub fn normalized_commit(self) -> (r: &'static str)
        ensures
            r@ == if trim(self.commit@).len() == 0 { "unknown"@ } else { self.commit@ },
    {
        if is_blank(self.commit) {
            "unknown"
        } else {
            self.commit
        }
    }
}

/// The build profile's name.
pub fn build_profile(debug_assertions: bool) -> (r: &'static str)
    ensures
        r@ == if debug_assertions { "debug"@ } else { "release"@ },
{
    if debug_assertions { "debug" } else { "release" }
}

/// `v<version> · <profile> · <commit>`.
pub fn build_info_label(info: BuildInfo) -> (r: String)
    ensures
        r@ == "v"@ + info.version@ + " · "@ + info.profile@ + " · "@ + (if trim(info.commit@).len()
            == 0 {
            "unknown"@
        } else {
            info.commit@
        }),
{
    let mut r = String::from_str("v");
    r.append(info.version);
    r.append(" · ");
    r.append(info.profile);
    r.append(" · ");
    r.append(info.normalized_commit());
    r
}

pub fn wind_reduction_runtime_label(runtime_info: Option<&PipelineRuntimeInfo>) -> (r: String)
    ensures
        r@ == match runtime_info {
            None => "未连接音频流"@,
            Some(i) => if i.wind_noise_reduction_enabled { "已启用"@ } else { "未启用"@ },
        },
{
    match runtime_info {
        Some(info) => if info.wind_noise_reduction_enabled() {
            String::from_str("已启用")
        } else {
            String::from_str("未启用")
        },
        None => String::from_str("未连接音频流"),
    }
}

pub fn echo_cancellation_runtime_label(runtime_info: Option<&PipelineRuntimeInfo>) -> (r: String)
    ensures
        r@ == match runtime_info {
            None => "未连接音频流"@,
            Some(i) => match i.echo_cancellation.backend {
                EchoCancellerBackend::Disabled => "未启用"@,
                EchoCancellerBackend::Aec3 => "已启用（AEC3）"@,
            },
        },
{
    let info = match runtime_info {
        Some(i) => i,
        None => return String::from_str("未连接音频流"),
    };
    match info.echo_cancellation().backend() {
        EchoCancellerBackend::Disabled => String::from_str("未启用"),
        EchoCancellerBackend::Aec3 => String::from_str("已启用（AEC3）"),
    }
}

/// Whether the running pipeline cancels echo; nothing when no pipeline runs.
pub fn echo_cancellation_is_active(runtime_info: Option<&PipelineRuntimeInfo>) -> (r: Option<bool>)
    ensures
        r == match runtime_info {
            None => None,
            Some(i) => Some(i.echo_cancellation.backend != EchoCancellerBackend::Disabled),
        },
{
    match runtime_info {
        Some(info) => Some(info.echo_cancellation().backend() != EchoCancellerBackend::Disabled),
        None => None,
    }
}

/// State of the DeepFilterNet model that ships with the program.
#[derive(Debug, Clone, PartialEq, Eq)]
pub enum DeepFilterModelUiStatus {
    NotConfigured,
    Valid,
    MissingAsset(String),
    Invalid(String),
}

/// The model's files, in the order they are checked.
pub open spec fn model_asset_file(i: int) -> Seq<char> {
    if i == 0 {
        "enc.onnx"@
    } else if i == 1 {
        "erb_dec.onnx"@
    } else if i == 2 {
        "df_dec.onnx"@
    } else {
        "config.ini"@
    }
}

fn model_asset_file_name(i: usize) -> (r: &'static str)
    requires
        i < 4,
    ensures
        r@ == model_asset_file(i as int),
{
    if i == 0 {
        "enc.onnx"
    } else if i == 1 {
        "erb_dec.onnx"
    } else if i == 2 {
        "df_dec.onnx"
    } else {
        "config.ini"
    }
}

/// The state of a model directory: not configured when no directory is named, else the
/// first of its files that is missing (`present` tells which of encoder, ERB decoder, DF
/// decoder and configuration are files), else valid.
pub fn deepfilter_model_status(dir_is_empty: bool, present: [bool; 4]) -> (r: DeepFilterModelUiStatus)
    ensures
        dir_is_empty ==> r == DeepFilterModelUiStatus::NotConfigured,
        !dir_is_empty ==> match r {
            DeepFilterModelUiStatus::MissingAsset(f) => exists|i: int|
                0 <= i < 4 && !present@[i] && (forall|j: int| 0 <= j < i ==> present@[j]) && f@
                    == #[trigger] model_asset_file(i),
            DeepFilterModelUiStatus::Valid => forall|i: int| 0 <= i < 4 ==> present@[i],
            _ => false,
        },
{
    if dir_is_empty {
        return DeepFilterModelUiStatus::NotConfigured;
    }
    let mut i: usize = 0;
    while i < 4
        invariant
            i <= 4,
            !dir_is_empty,
            forall|j: int| 0 <= j < i ==> present@[j],
        decreases 4 - i,
    {
        if !present[i] {
            let name = model_asset_file_name(i).to_string();
            assert(name@ == model_asset_file(i as int));
            return DeepFilterModelUiStatus::MissingAsset(name);
        }
        i += 1;
    }
    DeepFilterModelUiStatus::Valid
}

pub fn deepfilter_model_status_label(status: &DeepFilterModelUiStatus) -> (r: String)
    ensures
        r@ == match *status {
            DeepFilterModelUiStatus::NotConfigured => "未找到模型目录"@,
            DeepFilterModelUiStatus::Valid => "打包模型可用：DeepFilterNet"@,
            DeepFilterModelUiStatus::MissingAsset(f) => "打包模型不完整：缺少 "@ + f@,
            DeepFilterModelUiStatus::Invalid(m) => "打包模型无效："@ + m@,
        },
{
    match status {
        DeepFilterModelUiStatus::NotConfigured => String::from_str("未找到模型目录"),
        DeepFilterModelUiStatus::Valid => String::from_str("打包模型可用：DeepFilterNet"),
        DeepFilterModelUiStatus::MissingAsset(filename) => {
            let mut r = String::from_str("打包模型不完整：缺少 ");
            r.append(filename.as_str());
            r
        },
        DeepFilterModelUiStatus::Invalid(message) => {
            let mut r = String::from_str("打包模型无效：");
            r.append(message.as_str());
            r
        },
    }
}

/// The label of the packaged model, which says where the model was looked for when it is
/// missing.
pub fn packaged_deepfilter_model_status_label(status: &DeepFilterModelUiStatus) -> (r: String)
    ensures
        r@ == match *status {
            DeepFilterModelUiStatus::NotConfigured => "未找到随程序打包的 DeepFilterNet 模型"@,
            DeepFilterModelUiStatus::Valid => "打包模型可用：DeepFilterNet"@,
            DeepFilterModelUiStatus::MissingAsset(f) => "打包模型不完整：缺少 "@ + f@,
            DeepFilterModelUiStatus::Invalid(m) => "打包模型无效："@ + m@,
        },
{
    match status {
        DeepFilterModelUiStatus::NotConfigured => String::from_str("未找到随程序打包的 DeepFilterNet 模型"),
        _ => deepfilter_model_status_label(status),
    }
}

/// Why high-quality mode cannot start with the model in `status`; nothing for other modes or
/// a valid model.
pub fn deepfilter_startup_warning(mode: SuppressorMode, status: &DeepFilterModelUiStatus) -> (r: Option<String>)
    ensures
        mode != SuppressorMode::HighQuality ==> r is None,
        mode == SuppressorMode::HighQuality ==> match *status {
            DeepFilterModelUiStatus::Valid => r is None,
            DeepFilterModelUiStatus::NotConfigured => r matches Some(w) && w@ == "DeepFilterNet 模型不可用：未找到随程序打包的模型"@,
            DeepFilterModelUiStatus::MissingAsset(f) => r matches Some(w) && w@ == "DeepFilterNet 模型不可用：缺少 "@ + f@,
            DeepFilterModelUiStatus::Invalid(m) => r matches Some(w) && w@ == "DeepFilterNet 模型不可用："@ + m@,
        },
{
    if mode != SuppressorMode::HighQuality {
        return None;
    }
    match status {
        DeepFilterModelUiStatus::Valid => None,
        DeepFilterModelUiStatus::NotConfigured => Some(String::from_str("DeepFilterNet 模型不可用：未找到随程序打包的模型")),
        DeepFilterModelUiStatus::MissingAsset(filename) => {
            let mut r = String::from_str("DeepFilterNet 模型不可用：缺少 ");
            r.append(filename.as_str());
            Some(r)
        },
        DeepFilterModelUiStatus::Invalid(message) => {
            let mut r = String::from_str("DeepFilterNet 模型不可用：");
            r.append(message.as_str());
            Some(r)
        },
    }
}

pub fn backend_name_label(runtime_info: Option<&PipelineRuntimeInfo>) -> (r: String)
    ensures
        r@ == match runtime_info {
            None => "未连接音频流"@,
            Some(i) => i.suppressor.backend_name@,
        },
{
    match runtime_info {
        Some(info) => String::from_str(info.suppressor().backend_name()),
        None => String::from_str("未连接音频流"),
    }
}

pub open spec fn noise_suppression_status_text(info: Option<PipelineRuntimeInfo>) -> Seq<char> {
    match info {
        None => "未连接音频流"@,
        Some(i) => {
            let s = i.suppressor;
            if s.is_real_noise_suppression {
                let b = s.backend_name@;
                if b == "nnnoiseless-rnnoise"@ {
                    "低延迟降噪（RNNoise）已启用"@
                } else if b == "adaptive-quality-v1"@ {
                    "实验降噪后端已启用"@
                } else if b == "deepfilternet"@ || b == "deepfilternet-tract"@ || b
                    == "deepfilternet-tract-worker"@ {
                    "高质量降噪（DeepFilterNet 模型）已启用"@
                } else {
                    b + " 已启用"@
                }
            } else {
                match s.mode {
                    SuppressorMode::Bypass => "未启用降噪"@,
                    SuppressorMode::LowLatency => "RNNoise 不支持当前格式，已使用安全回退"@,
                    SuppressorMode::HighQuality => "高质量后端不可用，未启用降噪"@,
                }
            }
        },
    }
}

/// Which noise suppression runs.
pub fn noise_suppression_status_label(runtime_info: Option<&PipelineRuntimeInfo>) -> (r: String)
    ensures
        r@ == noise_suppression_status_text(opt_info(runtime_info)),
{
    let info = match runtime_info {
        Some(i) => i,
        None => return String::from_str("未连接音频流"),
    };
    let suppressor = info.suppressor();
    if suppressor.is_real_noise_suppression() {
        let backend = suppressor.backend_name();
        if str_eq(backend, "nnnoiseless-rnnoise") {
            return String::from_str("低延迟降噪（RNNoise）已启用");
        }
        if str_eq(backend, "adaptive-quality-v1") {
            return String::from_str("实验降噪后端已启用");
        }
        if str_eq(backend, "deepfilternet") || str_eq(backend, "deepfilternet-tract") || str_eq(
            backend,
            "deepfilternet-tract-worker",
        ) {
            return String::from_str("高质量降噪（DeepFilterNet 模型）已启用");
        }
        let mut r = String::from_str(backend);
        r.append(" 已启用");
        return r;
    }
    match suppressor.mode() {
        SuppressorMode::Bypass => String::from_str("未启用降噪"),
        SuppressorMode::LowLatency => String::from_str("RNNoise 不支持当前格式，已使用安全回退"),
        SuppressorMode::HighQuality => String::from_str("高质量后端不可用，未启用降噪"),
    }
}

/// `<n> 声道`, with at least one channel.
pub fn channel_count_label(channels: u16) -> (r: String)
    ensures
        r@ == decimal((if channels >= 1 { channels } else { 1 }) as nat) + " 声道"@,
{
    let mut r = String::new();
    push_decimal(&mut r, if channels >= 1 { channels as u64 } else { 1 });
    r.append(" 声道");
    r
}

pub open spec fn format_text(format: AudioFrameFormat) -> Seq<char> {
    decimal(format.sample_rate_hz as nat) + " Hz / "@ + decimal(
        (if format.channels >= 1 { format.channels } else { 1 }) as nat,
    ) + " 声道"@
}

/// `<rate> Hz / <n> 声道`.
pub fn runtime_format_label(format: AudioFrameFormat) -> (r: String)
    ensures
        r@ == format_text(format),
{
    let mut r = String::new();
    push_decimal(&mut r, format.sample_rate_hz() as u64);
    r.append(" Hz / ");
    let channels = channel_count_label(format.channels());
    r.append(channels.as_str());
    r
}

pub fn input_format_label(runtime_info: Option<&PipelineRuntimeInfo>) -> (r: String)
    ensures
        r@ == match runtime_info {
            None => "未连接音频流"@,
            Some(i) => format_text(i.input_format),
        },
{
    match runtime_info {
        Some(info) => runtime_format_label(info.input_format()),
        None => String::from_str("未连接音频流"),
    }
}

pub fn output_format_label(runtime_info: Option<&PipelineRuntimeInfo>) -> (r: String)
    ensures
        r@ == match runtime_info {
            None => "未连接音频流"@,
            Some(i) => format_text(i.output_format),
        },
{
    match runtime_info {
        Some(info) => runtime_format_label(info.output_format()),
        None => String::from_str("未连接音频流"),
    }
}

pub fn frame_size_label(runtime_info: Option<&PipelineRuntimeInfo>) -> (r: String)
    ensures
        r@ == match runtime_info {
            None => "未连接音频流"@,
            Some(i) => if i.suppressor.frame_size_samples == 0 {
                "无固定帧"@
            } else {
                decimal(i.suppressor.frame_size_samples as nat) + " samples"@
            },
        },
{
    let info = match runtime_info {
        Some(i) => i,
        None => return String::from_str("未连接音频流"),
    };
    let frame_size_samples = info.suppressor().frame_size_samples();
    if frame_size_samples == 0 {
        String::from_str("无固定帧")
    } else {
        let mut r = String::new();
        push_decimal(&mut r, frame_size_samples as u64);
        r.append(" samples");
        r
    }
}

pub open spec fn worker_of(info: Option<&PipelineRuntimeInfo>) -> Option<SuppressorWorkerDiagnostics> {
    match info {
        Some(i) => i.suppressor.worker_diagnostics,
        None => None,
    }
}

fn worker_diagnostics_of(runtime_info: Option<&PipelineRuntimeInfo>) -> (r: Option<SuppressorWorkerDiagnostics>)
    ensures
        r == worker_of(runtime_info),
{
    match runtime_info {
        Some(info) => info.suppressor().worker_diagnostics(),
        None => None,
    }
}

pub fn inference_health_label(runtime_info: Option<&PipelineRuntimeInfo>) -> (r: String)
    ensures
        r@ == match worker_of(runtime_info) {
            None => "未使用后台推理"@,
            Some(d) => if d.degraded || d.inference_errors > 0 {
                "已降级"@
            } else if d.late_output_frames > 0 || d.dropped_input_frames > 0 || d.dropped_output_frames > 0 {
                "推理偏慢"@
            } else {
                "稳定"@
            },
        },
{
    let diagnostics = match worker_diagnostics_of(runtime_info) {
        Some(d) => d,
        None => return String::from_str("未使用后台推理"),
    };
    if diagnostics.is_degraded() || diagnostics.inference_errors() > 0 {
        String::from_str("已降级")
    } else if diagnostics.late_output_frames() > 0 || diagnostics.dropped_input_frames() > 0
        || diagnostics.dropped_output_frames() > 0 {
        String::from_str("推理偏慢")
    } else {
        String::from_str("稳定")
    }
}

pub fn inference_latency_label(runtime_info: Option<&PipelineRuntimeInfo>) -> (r: String)
    ensures
        r@ == match worker_of(runtime_info) {
            None => "未使用后台推理"@,
            Some(d) => match (d.last_inference_time_ms, d.max_inference_time_ms) {
                (Some(last), Some(max)) => "最近 "@ + decimal(last as nat) + "ms / 最大 "@ + decimal(max as nat) + "ms"@,
                (Some(last), None) => "最近 "@ + decimal(last as nat) + "ms / 最大 --"@,
                (None, Some(max)) => "最近 -- / 最大 "@ + decimal(max as nat) + "ms"@,
                (None, None) => "等待首帧"@,
            },
        },
{
    let diagnostics = match worker_diagnostics_of(runtime_info) {
        Some(d) => d,
        None => return String::from_str("未使用后台推理"),
    };
    match (diagnostics.last_inference_time_ms(), diagnostics.max_inference_time_ms()) {
        (Some(last), Some(max)) => {
            let mut r = String::from_str("最近 ");
            push_decimal(&mut r, last as u64);
            r.append("ms / 最大 ");
            push_decimal(&mut r, max as u64);
            r.append("ms");
            r
        },
        (Some(last), None) => {
            let mut r = String::from_str("最近 ");
            push_decimal(&mut r, last as u64);
            r.append("ms / 最大 --");
            r
        },
        (None, Some(max)) => {
            let mut r = String::from_str("最近 -- / 最大 ");
            push_decimal(&mut r, max as u64);
            r.append("ms");
            r
        },
        (None, None) => String::from_str("等待首帧"),
    }
}

pub fn inference_queue_label(runtime_info: Option<&PipelineRuntimeInfo>) -> (r: String)
    ensures
        r@ == match worker_of(runtime_info) {
            None => "未使用后台推理"@,
            Some(d) => "输入 "@ + decimal(d.pending_input_frames as nat) + "/"@ + decimal(d.input_queue_capacity as nat)
                + " · 输出 "@ + decimal(d.pending_output_frames as nat) + "/"@ + decimal(d.output_queue_capacity as nat),
        },
{
    let d = match worker_diagnostics_of(runtime_info) {
        Some(d) => d,
        None => return String::from_str("未使用后台推理"),
    };
    let mut r = String::from_str("输入 ");
    push_decimal(&mut r, d.pending_input_frames() as u64);
    r.append("/");
    push_decimal(&mut r, d.input_queue_capacity() as u64);
    r.append(" · 输出 ");
    push_decimal(&mut r, d.pending_output_frames() as u64);
    r.append("/");
    push_decimal(&mut r, d.output_queue_capacity() as u64);
    r
}

pub fn inference_drop_label(runtime_info: Option<&PipelineRuntimeInfo>) -> (r: String)
    ensures
        r@ == match worker_of(runtime_info) {
            None => "未使用后台推理"@,
            Some(d) => "输入丢弃 "@ + decimal(d.dropped_input_frames as nat) + " · 输出丢弃 "@ + decimal(
                d.dropped_output_frames as nat,
            ) + " · 迟到 "@ + decimal(d.late_output_frames as nat),
        },
{
    let d = match worker_diagnostics_of(runtime_info) {
        Some(d) => d,
        None => return String::from_str("未使用后台推理"),
    };
    let mut r = String::from_str("输入丢弃 ");
    push_decimal(&mut r, d.dropped_input_frames());
    r.append(" · 输出丢弃 ");
    push_decimal(&mut r, d.dropped_output_frames());
    r.append(" · 迟到 ");
    push_decimal(&mut r, d.late_output_frames());
    r
}

pub fn suppression_strength_label(runtime_info: Option<&PipelineRuntimeInfo>) -> (r: String)
    ensures
        r@ == match runtime_info {
            None => "未连接音频流"@,
            Some(i) => if i.suppressor.mode == SuppressorMode::Bypass {
                "不适用"@
            } else {
                match i.suppressor.strength {
                    Some(s) => strength_text(s),
                    None => "标准"@,
                }
            },
        },
{
    let info = match runtime_info {
        Some(i) => i,
        None => return String::from_str("未连接音频流"),
    };
    if info.suppressor().mode() == SuppressorMode::Bypass {
        return String::from_str("不适用");
    }
    match info.suppressor().strength() {
        Some(s) => String::from_str(selected_strength_label(s)),
        None => String::from_str("标准"),
    }
}

/// The device's name, marked when it is the system default.
pub fn device_label(device: &AudioInputDevice) -> (r: String)
    ensures
        r@ == if device.spec_is_default() {
            device.spec_name() + "（默认）"@
        } else {
            device.spec_name()
        },
{
    let mut r = String::from_str(device.name());
    if device.is_default() {
        r.append("（默认）");
    }
    r
}

/// The output device's name, marked when it is the system default.
pub fn output_device_label(device: &AudioOutputDevice) -> (r: String)
    ensures
        r@ == if device.spec_is_default() {
            device.spec_name() + "（默认）"@
        } else {
            device.spec_name()
        },
{
    let mut r = String::from_str(device.name());
    if device.is_default() {
        r.append("（默认）");
    }
    r
}

/// Fonts with Chinese glyphs, tried in order.
pub fn chinese_font_candidates() -> (r: [&'static str; 7])
    ensures
        r[0]@ == "C:\\Windows\\Fonts\\msyh.ttc"@,
        r[1]@ == "C:\\Windows\\Fonts\\msyh.ttf"@,
        r[2]@ == "C:\\Windows\\Fonts\\simhei.ttf"@,
        r[3]@ == "C:\\Windows\\Fonts\\simsun.ttc"@,
        r[4]@ == "/mnt/c/Windows/Fonts/msyh.ttc"@,
        r[5]@ == "/mnt/c/Windows/Fonts/simhei.ttf"@,
        r[6]@ == "/mnt/c/Windows/Fonts/simsun.ttc"@,
{
    [
        "C:\\Windows\\Fonts\\msyh.ttc",
        "C:\\Windows\\Fonts\\msyh.ttf",
        "C:\\Windows\\Fonts\\simhei.ttf",
        "C:\\Windows\\Fonts\\simsun.ttc",
        "/mnt/c/Windows/Fonts/msyh.ttc",
        "/mnt/c/Windows/Fonts/simhei.ttf",
        "/mnt/c/Windows/Fonts/simsun.ttc",
    ]
}

} // verus!
