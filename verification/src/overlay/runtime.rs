//! What the overlay starts with, and the settings that it keeps.
use vstd::prelude::*;
use vstd::string::*;

use crate::audio::ducking::{self, clamp_duck_level};
use crate::config::{BehaviorConfig, Config, OverlayConfig, StreamingConfig};
use crate::overlay::app::{ControlUrls, OverlayAppUiConfig, OverlayLabels, OverlaySettingsUpdate};
use crate::overlay::mic::{self, short_mic_label};
use crate::overlay::modes::{EngineMode, InputControlMode, OutputModeState};
use crate::streaming::hub;
use crate::text;
use crate::web_url::{self, checked_control_url, derive_control_url};

verus! {

/// How long the talk button is held before it counts, unless something else is set.
pub const DEFAULT_HOLD_DELAY_MS: u64 = 260;

/// The least and the greatest delay of the talk button.
pub const MIN_HOLD_DELAY_MS: u64 = 120;

pub const MAX_HOLD_DELAY_MS: u64 = 800;

/// How many characters of the microphone's name are shown.
pub const MIC_LABEL_CHARS: usize = 12;

/// The least size of the window.
pub const MIN_WINDOW_WIDTH: u32 = 460;

pub const MIN_WINDOW_HEIGHT: u32 = 300;

/// What the overlay keeps of its own settings between runs. The opacity of the window is kept by
/// the window code.
#[derive(Debug, Clone, Copy, PartialEq, Eq, Structural)]
pub struct OverlayUiState {
    pub control_mode: InputControlMode,
    pub ptt_activation_delay_ms: u64,
    pub show_meter: bool,
}

/// What the overlay starts with.
#[derive(Debug)]
pub struct OverlayRuntimeConfig {
    pub url: String,
    pub ui: OverlayAppUiConfig,
    pub always_on_top: bool,
    pub width: u32,
    pub height: u32,
}

/// Where a provider runs.
pub open spec fn source_label(provider: Seq<char>) -> Seq<char> {
    if provider == "mistral_realtime"@ || provider == "openai-api"@ || provider == "assembly-ai"@
        || provider == "audetic-api"@ {
        "API"@
    } else if provider == "openai-cli"@ || provider == "whisper-cpp"@ {
        "Local"@
    } else {
        "Unknown"@
    }
}

/// Where a provider runs.
pub fn provider_source_label(provider: &str) -> (r: &'static str)
    ensures
        r@ == source_label(provider@),
{
    if text::same(provider, "mistral_realtime") || text::same(provider, "openai-api") || text::same(
        provider,
        "assembly-ai",
    ) || text::same(provider, "audetic-api") {
        "API"
    } else if text::same(provider, "openai-cli") || text::same(provider, "whisper-cpp") {
        "Local"
    } else {
        "Unknown"
    }
}

/// The delay of the talk button within its bounds.
pub open spec fn hold_delay(ms: u64) -> u64 {
    if ms < MIN_HOLD_DELAY_MS {
        MIN_HOLD_DELAY_MS
    } else if ms > MAX_HOLD_DELAY_MS {
        MAX_HOLD_DELAY_MS
    } else {
        ms
    }
}

fn bounded_delay(ms: u64) -> (r: u64)
    ensures
        r == hold_delay(ms),
{
    if ms < MIN_HOLD_DELAY_MS {
        MIN_HOLD_DELAY_MS
    } else if ms > MAX_HOLD_DELAY_MS {
        MAX_HOLD_DELAY_MS
    } else {
        ms
    }
}

/// The size of the window, which is not smaller than it can be.
pub fn window_size(width: u32, height: u32) -> (r: (u32, u32))
    ensures
        r.0 == (if width > MIN_WINDOW_WIDTH {
            width
        } else {
            MIN_WINDOW_WIDTH
        }),
        r.1 == (if height > MIN_WINDOW_HEIGHT {
            height
        } else {
            MIN_WINDOW_HEIGHT
        }),
{
    (
        if width > MIN_WINDOW_WIDTH {
            width
        } else {
            MIN_WINDOW_WIDTH
        },
        if height > MIN_WINDOW_HEIGHT {
            height
        } else {
            MIN_WINDOW_HEIGHT
        },
    )
}

/// The addresses belong to the service that streams its events from `stream_events_url`.
pub open spec fn are_urls_of(urls: ControlUrls, stream_events_url: Seq<char>) -> bool {
    &&& urls.toggle@ == web_url::control_text(stream_events_url, "/toggle"@)
    &&& urls.start@ == web_url::control_text(stream_events_url, "/start"@)
    &&& urls.stop@ == web_url::control_text(stream_events_url, "/stop"@)
}

/// The event stream's address leaves room for the paths of the requests.
pub open spec fn urls_fit(stream_events_url: Seq<char>) -> bool {
    &&& web_url::control_room(stream_events_url, "/toggle"@)
    &&& web_url::control_room(stream_events_url, "/start"@)
    &&& web_url::control_room(stream_events_url, "/stop"@)
}

fn control_urls(stream_events_url: &str) -> (r: ControlUrls)
    requires
        urls_fit(stream_events_url@),
    ensures
        are_urls_of(r, stream_events_url@),
{
    ControlUrls {
        toggle: derive_control_url(stream_events_url, "/toggle"),
        start: derive_control_url(stream_events_url, "/start"),
        stop: derive_control_url(stream_events_url, "/stop"),
    }
}

/// The addresses that requests go to; nothing where they would grow beyond what can be counted.
pub fn checked_control_urls(stream_events_url: &str) -> (r: Option<ControlUrls>)
    ensures
        match r {
            Some(urls) => urls_fit(stream_events_url@) && are_urls_of(urls, stream_events_url@),
            None => !urls_fit(stream_events_url@),
        },
{
    let toggle = checked_control_url(stream_events_url, "/toggle");
    let start = checked_control_url(stream_events_url, "/start");
    let stop = checked_control_url(stream_events_url, "/stop");
    match (toggle, start, stop) {
        (Some(toggle), Some(start), Some(stop)) => Some(ControlUrls { toggle, start, stop }),
        _ => None,
    }
}

/// The settings that the configuration asks for, with those that were kept.
pub open spec fn starting_settings(
    behavior: BehaviorConfig,
    show_meter: bool,
    saved: Option<OverlayUiState>,
) -> OverlaySettingsUpdate {
    OverlaySettingsUpdate {
        control_mode: match saved {
            Some(s) => s.control_mode,
            None => InputControlMode::Toggle,
        },
        ptt_activation_delay_ms: match saved {
            Some(s) => hold_delay(s.ptt_activation_delay_ms),
            None => DEFAULT_HOLD_DELAY_MS,
        },
        show_meter: match saved {
            Some(s) => s.show_meter,
            None => show_meter,
        },
        audio_ducking: behavior.audio_ducking,
        ducking_level_percent: ducking::duck_level(behavior.ducking_level_percent),
        preserve_clipboard: behavior.preserve_clipboard,
    }
}

/// What is done with a final text: what was kept, or what the configuration asks for.
pub open spec fn starting_output(
    behavior: BehaviorConfig,
    saved: Option<OutputModeState>,
) -> OutputModeState {
    match saved {
        Some(s) => s,
        None => OutputModeState {
            copy_to_clipboard: true,
            auto_paste: behavior.auto_paste,
            append_newline: behavior.append_newline,
            send_enter: false,
        },
    }
}

/// The labels follow the configuration and the name of the microphone.
pub open spec fn labels_follow(
    labels: OverlayLabels,
    config: Config,
    mic_name: Option<Seq<char>>,
) -> bool {
    &&& labels.streaming_model@ == config.streaming.model@
    &&& labels.streaming_source@ == source_label(config.streaming.provider@)
    &&& labels.batch_model@ == match config.whisper.model {
        Some(m) => m@,
        None => "<default>"@,
    }
    &&& labels.batch_source@ == source_label(
        match config.whisper.provider {
            Some(p) => p@,
            None => "audetic-api"@,
        },
    )
    &&& labels.mic@ == match mic_name {
        Some(n) => mic::first_chars(n, MIC_LABEL_CHARS as nat),
        None => "Unknown"@,
    }
}

/// The overlay starts with what the configuration asks for and with what was kept.
pub open spec fn starts_with(
    r: OverlayRuntimeConfig,
    config: Config,
    urls: ControlUrls,
    mic_name: Option<Seq<char>>,
    output: Option<OutputModeState>,
    ui: Option<OverlayUiState>,
) -> bool {
    &&& r.url@ == config.overlay.url@
    &&& r.ui.urls == urls
    &&& labels_follow(r.ui.labels, config, mic_name)
    &&& r.ui.engine_mode == (if config.streaming.enabled {
        EngineMode::Streaming
    } else {
        EngineMode::Batch
    })
    &&& r.ui.settings == starting_settings(config.behavior, config.overlay.show_meter, ui)
    &&& r.ui.output == starting_output(config.behavior, output)
    &&& r.always_on_top == config.overlay.always_on_top
    &&& r.width == config.overlay.width
    &&& r.height == config.overlay.height
}

/// The settings of an overlay that has no configuration to follow.
pub open spec fn fallback_behavior() -> BehaviorConfig {
    BehaviorConfig {
        auto_paste: true,
        preserve_clipboard: false,
        delete_audio_files: true,
        audio_feedback: true,
        append_newline: false,
        audio_ducking: false,
        ducking_level_percent: 35,
    }
}

/// The overlay starts without a configuration: for the local service, with what was kept.
pub open spec fn starts_plain(
    r: OverlayRuntimeConfig,
    urls: ControlUrls,
    output: Option<OutputModeState>,
    ui: Option<OverlayUiState>,
) -> bool {
    &&& r.url@ == "http://127.0.0.1:3737/stream/events"@
    &&& r.ui.urls == urls
    &&& r.ui.labels.streaming_model@ == "voxtral-mini-transcribe-realtime-2602"@
    &&& r.ui.labels.streaming_source@ == "API"@
    &&& r.ui.labels.batch_model@ == "base"@
    &&& r.ui.labels.batch_source@ == "Local"@
    &&& r.ui.labels.mic@ == "Unknown"@
    &&& r.ui.engine_mode == EngineMode::Streaming
    &&& r.ui.settings == starting_settings(fallback_behavior(), true, ui)
    &&& r.ui.output == starting_output(fallback_behavior(), output)
    &&& r.always_on_top
    &&& r.width == 560
    &&& r.height == 220
}

fn settings_from(
    behavior: &BehaviorConfig,
    show_meter: bool,
    saved: Option<OverlayUiState>,
) -> (r: OverlaySettingsUpdate)
    ensures
        r == starting_settings(*behavior, show_meter, saved),
{
    let mut r = OverlaySettingsUpdate {
        control_mode: InputControlMode::Toggle,
        ptt_activation_delay_ms: DEFAULT_HOLD_DELAY_MS,
        show_meter,
        audio_ducking: behavior.audio_ducking,
        ducking_level_percent: clamp_duck_level(behavior.ducking_level_percent),
        preserve_clipboard: behavior.preserve_clipboard,
    };
    if let Some(s) = saved {
        r.control_mode = s.control_mode;
        r.ptt_activation_delay_ms = bounded_delay(s.ptt_activation_delay_ms);
        r.show_meter = s.show_meter;
    }
    r
}

fn output_from(behavior: &BehaviorConfig, saved: Option<OutputModeState>) -> (r: OutputModeState)
    ensures
        r == starting_output(*behavior, saved),
{
    match saved {
        Some(s) => s,
        None => OutputModeState {
            copy_to_clipboard: true,
            auto_paste: behavior.auto_paste,
            append_newline: behavior.append_newline,
            send_enter: false,
        },
    }
}

fn labels_from(config: &Config, mic_name: Option<&str>) -> (r: OverlayLabels)
    ensures
        labels_follow(r, *config, hub::opt_str(mic_name)),
{
    let batch_model = match &config.whisper.model {
        Some(m) => m.clone(),
        None => "<default>".to_owned(),
    };
    let batch_source = match &config.whisper.provider {
        Some(p) => provider_source_label(p.as_str()),
        None => provider_source_label("audetic-api"),
    };
    let mic = match mic_name {
        Some(n) => short_mic_label(n, MIC_LABEL_CHARS),
        None => "Unknown".to_owned(),
    };
    OverlayLabels {
        streaming_model: config.streaming.model.clone(),
        streaming_source: provider_source_label(config.streaming.provider.as_str()).to_owned(),
        batch_model,
        batch_source: batch_source.to_owned(),
        mic,
    }
}

impl OverlayRuntimeConfig {
    /// What the overlay starts with under a configuration, given the addresses of the requests, the
    /// name of the microphone and what was kept.
    pub fn with_urls(
        config: &Config,
        urls: ControlUrls,
        mic_name: Option<&str>,
        output: Option<OutputModeState>,
        ui: Option<OverlayUiState>,
    ) -> (r: OverlayRuntimeConfig)
        ensures
            starts_with(r, *config, urls, hub::opt_str(mic_name), output, ui),
    {
        OverlayRuntimeConfig {
            url: config.overlay.url.clone(),
            ui: OverlayAppUiConfig {
                urls,
                labels: labels_from(config, mic_name),
                engine_mode: EngineMode::of_setting(config.streaming.enabled),
                settings: settings_from(&config.behavior, config.overlay.show_meter, ui),
                output: output_from(&config.behavior, output),
            },
            always_on_top: config.overlay.always_on_top,
            width: config.overlay.width,
            height: config.overlay.height,
        }
    }

    /// What the overlay starts with under a configuration.
    pub fn from_config(
        config: &Config,
        mic_name: Option<&str>,
        output: Option<OutputModeState>,
        ui: Option<OverlayUiState>,
    ) -> (r: OverlayRuntimeConfig)
        requires
            urls_fit(config.overlay.url@),
        ensures
            starts_with(r, *config, r.ui.urls, hub::opt_str(mic_name), output, ui),
            are_urls_of(r.ui.urls, config.overlay.url@),
    {
        let urls = control_urls(config.overlay.url.as_str());
        Self::with_urls(config, urls, mic_name, output, ui)
    }

    /// As `from_config`, for any configuration: nothing where the addresses of the requests would
    /// grow beyond what can be counted.
    pub fn checked_from_config(
        config: &Config,
        mic_name: Option<&str>,
        output: Option<OutputModeState>,
        ui: Option<OverlayUiState>,
    ) -> (r: Option<OverlayRuntimeConfig>)
        ensures
            match r {
                Some(c) => {
                    &&& urls_fit(config.overlay.url@)
                    &&& starts_with(c, *config, c.ui.urls, hub::opt_str(mic_name), output, ui)
                    &&& are_urls_of(c.ui.urls, config.overlay.url@)
                },
                None => !urls_fit(config.overlay.url@),
            },
    {
        match checked_control_urls(config.overlay.url.as_str()) {
            Some(_) => Some(Self::from_config(config, mic_name, output, ui)),
            None => None,
        }
    }

    /// What the overlay starts with when there is no configuration, given the addresses of the
    /// requests and what was kept.
    pub fn plain_with_urls(
        urls: ControlUrls,
        output: Option<OutputModeState>,
        ui: Option<OverlayUiState>,
    ) -> (r: OverlayRuntimeConfig)
        ensures
            starts_plain(r, urls, output, ui),
    {
        let cfg = OverlayConfig::default();
        let behavior = BehaviorConfig::default();
        OverlayRuntimeConfig {
            url: cfg.url,
            ui: OverlayAppUiConfig {
                urls,
                labels: OverlayLabels {
                    streaming_model: "voxtral-mini-transcribe-realtime-2602".to_owned(),
                    streaming_source: "API".to_owned(),
                    batch_model: "base".to_owned(),
                    batch_source: "Local".to_owned(),
                    mic: "Unknown".to_owned(),
                },
                engine_mode: EngineMode::Streaming,
                settings: settings_from(&behavior, cfg.show_meter, ui),
                output: output_from(&behavior, output),
            },
            always_on_top: cfg.always_on_top,
            width: cfg.width,
            height: cfg.height,
        }
    }

    /// What the overlay starts with when there is no configuration: nothing where the addresses of
    /// the requests would grow beyond what can be counted.
    pub fn fallback_default(output: Option<OutputModeState>, ui: Option<OverlayUiState>) -> (r:
        Option<OverlayRuntimeConfig>)
        ensures
            match r {
                Some(c) => {
                    &&& urls_fit("http://127.0.0.1:3737/stream/events"@)
                    &&& starts_plain(c, c.ui.urls, output, ui)
                    &&& are_urls_of(c.ui.urls, "http://127.0.0.1:3737/stream/events"@)
                },
                None => !urls_fit("http://127.0.0.1:3737/stream/events"@),
            },
    {
        match checked_control_urls("http://127.0.0.1:3737/stream/events") {
            Some(urls) => Some(Self::plain_with_urls(urls, output, ui)),
            None => None,
        }
    }
}

/// Sets the engine in the configuration.
pub fn persist_engine_mode(config: &mut Config, mode: EngineMode)
    ensures
        *final(config) == (Config {
            streaming: StreamingConfig {
                enabled: mode == EngineMode::Streaming,
                ..old(config).streaming
            },
            ..*old(config)
        }),
{
    config.streaming.enabled = mode.is_streaming();
}

/// What the overlay keeps of its own settings.
pub open spec fn kept_ui_state(update: OverlaySettingsUpdate) -> OverlayUiState {
    OverlayUiState {
        control_mode: update.control_mode,
        ptt_activation_delay_ms: hold_delay(update.ptt_activation_delay_ms),
        show_meter: update.show_meter,
    }
}

/// What the overlay keeps of its own settings.
pub fn persist_overlay_ui_state(update: &OverlaySettingsUpdate) -> (r: OverlayUiState)
    ensures
        r == kept_ui_state(*update),
{
    OverlayUiState {
        control_mode: update.control_mode,
        ptt_activation_delay_ms: bounded_delay(update.ptt_activation_delay_ms),
        show_meter: update.show_meter,
    }
}

/// The configuration with the settings of the overlay.
pub open spec fn config_with(config: Config, update: OverlaySettingsUpdate) -> Config {
    Config {
        overlay: OverlayConfig { show_meter: update.show_meter, ..config.overlay },
        behavior: BehaviorConfig {
            audio_ducking: update.audio_ducking,
            ducking_level_percent: ducking::duck_level(update.ducking_level_percent),
            preserve_clipboard: update.preserve_clipboard,
            ..config.behavior
        },
        ..config
    }
}

/// Sets the settings of the overlay in the configuration.
pub fn persist_overlay_settings(config: &mut Config, update: &OverlaySettingsUpdate)
    ensures
        *final(config) == config_with(*old(config), *update),
{
    config.overlay.show_meter = update.show_meter;
    config.behavior.audio_ducking = update.audio_ducking;
    config.behavior.ducking_level_percent = clamp_duck_level(update.ducking_level_percent);
    config.behavior.preserve_clipboard = update.preserve_clipboard;
}

/// The settings that the overlay keeps are those it starts with the next time, the numbers within
/// their bounds.
pub proof fn kept_settings_come_back(config: Config, update: OverlaySettingsUpdate)
    ensures
        ({
            let kept = config_with(config, update);
            starting_settings(
                kept.behavior,
                kept.overlay.show_meter,
                Some(kept_ui_state(update)),
            ) == OverlaySettingsUpdate {
                ptt_activation_delay_ms: hold_delay(update.ptt_activation_delay_ms),
                ducking_level_percent: ducking::duck_level(update.ducking_level_percent),
                ..update
            }
        }),
{
}

/// The final action that was kept is the one that the overlay starts with the next time.
pub proof fn kept_output_comes_back(behavior: BehaviorConfig, output: OutputModeState)
    ensures
        starting_output(behavior, Some(output)) == output,
{
}

/// Which file of the overlay is kept.
#[derive(Debug, Clone, Copy, PartialEq, Eq, Structural)]
pub enum StateFile {
    OutputMode,
    OverlayUi,
}

/// Why something could not be kept.
#[derive(Debug)]
pub enum SaveError {
    NoDataDirectory,
    CreateDirectory(StateFile, String),
    Serialize(StateFile, String),
    Write(StateFile, String),
    LoadConfig(String),
    SaveConfig(String),
}

/// The message for a failure to keep something.
pub open spec fn save_message(e: SaveError) -> Seq<char> {
    match e {
        SaveError::NoDataDirectory => "Could not resolve data directory"@,
        SaveError::CreateDirectory(StateFile::OutputMode, err) =>
            "Failed to create output-mode directory: "@ + err@,
        SaveError::CreateDirectory(StateFile::OverlayUi, err) =>
            "Failed to create overlay state directory: "@ + err@,
        SaveError::Serialize(StateFile::OutputMode, err) =>
            "Failed to serialize output mode state: "@ + err@,
        SaveError::Serialize(StateFile::OverlayUi, err) => "Failed to serialize overlay state: "@
            + err@,
        SaveError::Write(StateFile::OutputMode, err) => "Failed to write output mode state: "@
            + err@,
        SaveError::Write(StateFile::OverlayUi, err) => "Failed to write overlay state: "@ + err@,
        SaveError::LoadConfig(err) => "Failed to load config: "@ + err@,
        SaveError::SaveConfig(err) => "Failed to save config: "@ + err@,
    }
}

impl SaveError {
    /// The message for the failure.
    pub fn message(&self) -> (r: String)
        ensures
            r@ == save_message(*self),
    {
        match self {
            SaveError::NoDataDirectory => "Could not resolve data directory".to_owned(),
            SaveError::CreateDirectory(StateFile::OutputMode, err) => text::join(
                "Failed to create output-mode directory: ",
                err.as_str(),
            ),
            SaveError::CreateDirectory(StateFile::OverlayUi, err) => text::join(
                "Failed to create overlay state directory: ",
                err.as_str(),
            ),
            SaveError::Serialize(StateFile::OutputMode, err) => text::join(
                "Failed to serialize output mode state: ",
                err.as_str(),
            ),
            SaveError::Serialize(StateFile::OverlayUi, err) => text::join(
                "Failed to serialize overlay state: ",
                err.as_str(),
            ),
            SaveError::Write(StateFile::OutputMode, err) => text::join(
                "Failed to write output mode state: ",
                err.as_str(),
            ),
            SaveError::Write(StateFile::OverlayUi, err) => text::join(
                "Failed to write overlay state: ",
                err.as_str(),
            ),
            SaveError::LoadConfig(err) => text::join("Failed to load config: ", err.as_str()),
            SaveError::SaveConfig(err) => text::join("Failed to save config: ", err.as_str()),
        }
    }
}

} // verus!
