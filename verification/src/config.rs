//! The settings of the service and of the overlay.
use vstd::prelude::*;
use vstd::string::*;

verus! {

/// How recordings are transcribed in batch mode.
#[derive(Debug, Clone)]
pub struct WhisperConfig {
    pub model: Option<String>,
    pub language: Option<String>,
    pub command_path: Option<String>,
    pub model_path: Option<String>,
    pub api_endpoint: Option<String>,
    pub provider: Option<String>,
    pub api_key: Option<String>,
}

/// How the state is shown on the desktop.
#[derive(Debug)]
pub struct UiConfig {
    pub notification_color: String,
    pub waybar: WaybarConfig,
}

/// The texts of the status bar module.
#[derive(Debug, Clone)]
pub struct WaybarConfig {
    pub idle_text: String,
    pub recording_text: String,
    pub idle_tooltip: String,
    pub recording_tooltip: String,
}

/// How text reaches the focused application.
#[derive(Debug)]
pub struct WaylandConfig {
    pub input_method: String,
}

/// What happens around a recording.
#[derive(Debug, Clone, Copy)]
pub struct BehaviorConfig {
    pub auto_paste: bool,
    pub preserve_clipboard: bool,
    pub delete_audio_files: bool,
    pub audio_feedback: bool,
    pub append_newline: bool,
    pub audio_ducking: bool,
    pub ducking_level_percent: u8,
}

/// How speech is streamed to a realtime provider.
#[derive(Debug, Clone)]
pub struct StreamingConfig {
    pub enabled: bool,
    pub provider: String,
    pub api_key: Option<String>,
    pub model: String,
    pub api_base_url: String,
    pub sample_rate_hz: u32,
    pub chunk_ms: u32,
    pub silence_timeout_ms: u64,
    pub commit_target: String,
}

/// How the overlay window is shown. The opacity of the window is kept by the window code.
#[derive(Debug, Clone)]
pub struct OverlayConfig {
    pub enabled: bool,
    pub url: String,
    pub always_on_top: bool,
    pub width: u32,
    pub height: u32,
    pub show_meter: bool,
}

/// All settings.
#[derive(Debug)]
pub struct Config {
    pub whisper: WhisperConfig,
    pub ui: UiConfig,
    pub wayland: WaylandConfig,
    pub behavior: BehaviorConfig,
    pub streaming: StreamingConfig,
    pub overlay: OverlayConfig,
}

/// An optional text, by its characters.
pub open spec fn opt_view(s: Option<String>) -> Option<Seq<char>> {
    match s {
        Some(t) => Some(t@),
        None => None,
    }
}

/// Audio feedback is on unless switched off.
pub fn default_audio_feedback() -> (r: bool)
    ensures
        r,
{
    true
}

/// The volume that other sounds are lowered to while recording.
pub fn default_ducking_level_percent() -> (r: u8)
    ensures
        r == 35,
{
    35
}

impl WhisperConfig {
    pub open spec fn is_default(self) -> bool {
        &&& opt_view(self.model) == Some("base"@)
        &&& opt_view(self.language) == Some("en"@)
        &&& self.command_path is None
        &&& self.model_path is None
        &&& self.api_endpoint is None
        &&& opt_view(self.provider) == Some("audetic-api"@)
        &&& self.api_key is None
    }
}

impl Default for WhisperConfig {
    fn default() -> (r: Self)
        ensures
            r.is_default(),
    {
        WhisperConfig {
            model: Some("base".to_owned()),
            language: Some("en".to_owned()),
            command_path: None,
            model_path: None,
            api_endpoint: None,
            provider: Some("audetic-api".to_owned()),
            api_key: None,
        }
    }
}

impl WaybarConfig {
    pub open spec fn is_default(self) -> bool {
        &&& self.idle_text@ == "󰑊"@
        &&& self.recording_text@ == "󰻃"@
        &&& self.idle_tooltip@ == "Press Super+R to record"@
        &&& self.recording_tooltip@ == "Recording... Press Super+R to stop"@
    }
}

impl Default for WaybarConfig {
    fn default() -> (r: Self)
        ensures
            r.is_default(),
    {
        WaybarConfig {
            idle_text: "󰑊".to_owned(),
            recording_text: "󰻃".to_owned(),
            idle_tooltip: "Press Super+R to record".to_owned(),
            recording_tooltip: "Recording... Press Super+R to stop".to_owned(),
        }
    }
}

impl UiConfig {
    pub open spec fn is_default(self) -> bool {
        &&& self.notification_color@ == "rgb(ff1744)"@
        &&& self.waybar.is_default()
    }
}

impl Default for UiConfig {
    fn default() -> (r: Self)
        ensures
            r.is_default(),
    {
        UiConfig { notification_color: "rgb(ff1744)".to_owned(), waybar: WaybarConfig::default() }
    }
}

impl WaylandConfig {
    pub open spec fn is_default(self) -> bool {
        self.input_method@ == "wtype"@
    }
}

impl Default for WaylandConfig {
    fn default() -> (r: Self)
        ensures
            r.is_default(),
    {
        WaylandConfig { input_method: "wtype".to_owned() }
    }
}

impl BehaviorConfig {
    pub open spec fn is_default(self) -> bool {
        self == (BehaviorConfig {
            auto_paste: true,
            preserve_clipboard: false,
            delete_audio_files: true,
            audio_feedback: true,
            append_newline: false,
            audio_ducking: false,
            ducking_level_percent: 35,
        })
    }
}

impl Default for BehaviorConfig {
    fn default() -> (r: Self)
        ensures
            r.is_default(),
    {
        BehaviorConfig {
            auto_paste: true,
            preserve_clipboard: false,
            delete_audio_files: true,
            audio_feedback: true,
            append_newline: false,
            audio_ducking: false,
            ducking_level_percent: default_ducking_level_percent(),
        }
    }
}

impl StreamingConfig {
    pub open spec fn is_default(self) -> bool {
        &&& !self.enabled
        &&& self.provider@ == "mistral_realtime"@
        &&& self.api_key is None
        &&& self.model@ == "voxtral-mini-transcribe-realtime-2602"@
        &&& self.api_base_url@ == "https://api.mistral.ai"@
        &&& self.sample_rate_hz == 16_000
        &&& self.chunk_ms == 20
        &&& self.silence_timeout_ms == 700
        &&& self.commit_target@ == "clipboard"@
    }
}

impl Default for StreamingConfig {
    fn default() -> (r: Self)
        ensures
            r.is_default(),
    {
        StreamingConfig {
            enabled: false,
            provider: "mistral_realtime".to_owned(),
            api_key: None,
            model: "voxtral-mini-transcribe-realtime-2602".to_owned(),
            api_base_url: "https://api.mistral.ai".to_owned(),
            sample_rate_hz: 16_000,
            chunk_ms: 20,
            silence_timeout_ms: 700,
            commit_target: "clipboard".to_owned(),
        }
    }
}

impl OverlayConfig {
    pub open spec fn is_default(self) -> bool {
        &&& self.enabled
        &&& self.url@ == "http://127.0.0.1:3737/stream/events"@
        &&& self.always_on_top
        &&& self.width == 560
        &&& self.height == 220
        &&& self.show_meter
    }
}

impl Default for OverlayConfig {
    fn default() -> (r: Self)
        ensures
            r.is_default(),
    {
        OverlayConfig {
            enabled: true,
            url: "http://127.0.0.1:3737/stream/events".to_owned(),
            always_on_top: true,
            width: 560,
            height: 220,
            show_meter: true,
        }
    }
}

impl Config {
    pub open spec fn is_default(self) -> bool {
        &&& self.whisper.is_default()
        &&& self.ui.is_default()
        &&& self.wayland.is_default()
        &&& self.behavior.is_default()
        &&& self.streaming.is_default()
        &&& self.overlay.is_default()
    }
}

impl Default for Config {
    fn default() -> (r: Self)
        ensures
            r.is_default(),
    {
        Config {
            whisper: WhisperConfig::default(),
            ui: UiConfig::default(),
            wayland: WaylandConfig::default(),
            behavior: BehaviorConfig::default(),
            streaming: StreamingConfig::default(),
            overlay: OverlayConfig::default(),
        }
    }
}

} // verus!
