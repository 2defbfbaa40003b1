//! How the overlay is operated: the record control, hold to talk, the settings and the visibility
//! of the window. Times are nanoseconds on a clock that does not go back.
use vstd::prelude::*;
use vstd::string::*;

use crate::overlay::modes::{
    self, output_mode_from_flags, EngineMode, InputControlMode, OutputMode, OutputModeState,
};
use crate::overlay::state::{OverlayState, OverlayView};
use crate::text;

verus! {

/// The nanoseconds of a millisecond.
pub const NANOS_PER_MS: u64 = 1_000_000;

/// Requests that follow each other faster than this are dropped.
pub const REQUEST_GAP_MS: u64 = 150;

/// Changed settings are kept no more often than this.
pub const AUTOSAVE_GAP_MS: u64 = 320;

/// How long the window stays after the last activity.
pub const OVERLAY_HIDE_DELAY_MS: u64 = 1300;

/// The addresses that requests go to.
#[derive(Debug)]
pub struct ControlUrls {
    pub toggle: String,
    pub start: String,
    pub stop: String,
}

/// What the overlay says about the engines and the microphone.
#[derive(Debug)]
pub struct OverlayLabels {
    pub streaming_model: String,
    pub streaming_source: String,
    pub batch_model: String,
    pub batch_source: String,
    pub mic: String,
}

/// A hold of the talk button. `owns_session` says that the session was begun by the hold,
/// `start_requested` that one was asked for, `pending_stop_after_start` that the hold was over
/// before it began.
#[derive(Debug, Clone, Copy, PartialEq, Eq, Structural)]
pub struct HoldState {
    pub button_down: bool,
    pub owns_session: bool,
    pub start_requested: bool,
    pub pending_stop_after_start: bool,
    pub press_started_at: Option<u64>,
}

/// Whether settings were changed since they were last kept.
#[derive(Debug, Clone, Copy, PartialEq, Eq, Structural)]
pub struct SaveState {
    pub dirty: bool,
    pub last_save_at: Option<u64>,
}

/// Whether the window is shown, and when there was something to show.
#[derive(Debug, Clone, Copy, PartialEq, Eq, Structural)]
pub struct WindowState {
    pub visible: bool,
    pub has_seen_active_phase: bool,
    pub last_active_phase_at: Option<u64>,
}

/// The settings that are kept. The opacity of the window is kept by the window code.
#[derive(Debug, Clone, Copy, PartialEq, Eq, Structural)]
pub struct OverlaySettingsUpdate {
    pub control_mode: InputControlMode,
    pub ptt_activation_delay_ms: u64,
    pub show_meter: bool,
    pub audio_ducking: bool,
    pub ducking_level_percent: u8,
    pub preserve_clipboard: bool,
}

/// The overlay as its user operates it.
#[derive(Debug)]
pub struct OverlayApp {
    pub urls: ControlUrls,
    pub labels: OverlayLabels,
    pub engine_mode: EngineMode,
    pub settings: OverlaySettingsUpdate,
    pub output: OutputModeState,
    pub hold: HoldState,
    pub last_request_at: Option<u64>,
    pub show_settings: bool,
    pub saving: SaveState,
    pub window: WindowState,
}

/// What the overlay starts with.
#[derive(Debug)]
pub struct OverlayAppUiConfig {
    pub urls: ControlUrls,
    pub labels: OverlayLabels,
    pub engine_mode: EngineMode,
    pub settings: OverlaySettingsUpdate,
    pub output: OutputModeState,
}

/// What is asked of the service along with a request.
#[derive(Debug, Clone, Copy)]
pub struct ToggleBody {
    pub copy_to_clipboard: Option<bool>,
    pub auto_paste: Option<bool>,
    pub append_newline: Option<bool>,
    pub send_enter: Option<bool>,
}

/// A request to the service.
#[derive(Debug)]
pub struct ControlRequest {
    pub url: String,
    pub body: ToggleBody,
}

/// The nanoseconds from `since` to `now`.
pub open spec fn elapsed(now: u64, since: u64) -> int {
    if now >= since {
        now - since
    } else {
        0
    }
}

/// At least this many milliseconds have gone by.
pub open spec fn has_passed(now: u64, since: u64, ms: u64) -> bool {
    elapsed(now, since) >= ms * NANOS_PER_MS
}

/// Whether at least this many milliseconds have gone by since then.
fn passed(now: u64, since: u64, ms: u64) -> (r: bool)
    ensures
        r == has_passed(now, since, ms),
{
    let gone: u64 = now.saturating_sub(since);
    assert(0 <= ms * NANOS_PER_MS <= u64::MAX * NANOS_PER_MS) by (nonlinear_arith)
        requires
            0 <= ms <= u64::MAX,
    ;
    let wanted: u128 = (ms as u128) * (NANOS_PER_MS as u128);
    gone as u128 >= wanted
}

/// No hold is in progress.
pub open spec fn no_hold() -> HoldState {
    HoldState {
        button_down: false,
        owns_session: false,
        start_requested: false,
        pending_stop_after_start: false,
        press_started_at: None,
    }
}

/// What is asked for with a request.
pub open spec fn body_of(output: OutputModeState) -> ToggleBody {
    ToggleBody {
        copy_to_clipboard: Some(output.copy_to_clipboard),
        auto_paste: Some(output.auto_paste),
        append_newline: Some(output.append_newline),
        send_enter: Some(output.send_enter),
    }
}

/// A request may be made: the last one is long enough ago.
pub open spec fn may_ask(last: Option<u64>, now: u64) -> bool {
    match last {
        Some(t) => has_passed(now, t, REQUEST_GAP_MS),
        None => true,
    }
}

/// When the last request was made, after one was to be made now.
pub open spec fn asked(last: Option<u64>, now: u64) -> Option<u64> {
    if may_ask(last, now) {
        Some(now)
    } else {
        last
    }
}

/// `r` is the request to `url`, if it is wanted and may be made.
pub open spec fn is_request(
    r: Option<ControlRequest>,
    wanted: Option<Seq<char>>,
    last: Option<u64>,
    now: u64,
    output: OutputModeState,
) -> bool {
    match r {
        Some(request) => wanted == Some(request.url@) && may_ask(last, now) && request.body
            == body_of(output),
        None => wanted is None || !may_ask(last, now),
    }
}

/// What is shown while a request is on its way.
pub open spec fn toggling(v: OverlayView, requested: bool) -> OverlayView {
    if requested {
        OverlayView { status_line: "Toggling..."@, ..v }
    } else {
        v
    }
}

/// Something is being recorded or transcribed.
pub open spec fn is_active(phase: Seq<char>) -> bool {
    phase == "recording"@ || phase == "processing"@
}

/// The activity has been noted.
pub open spec fn activity_noted(w: WindowState, phase: Seq<char>, now: u64) -> WindowState {
    if is_active(phase) {
        WindowState { has_seen_active_phase: true, last_active_phase_at: Some(now), ..w }
    } else {
        w
    }
}

/// The window is to be seen: while the settings are open, while there is activity and a little
/// after, and as long as there never was any.
pub open spec fn to_be_visible(
    w: WindowState,
    show_settings: bool,
    phase: Seq<char>,
    now: u64,
) -> bool {
    ||| show_settings
    ||| is_active(phase)
    ||| !w.has_seen_active_phase
    ||| match w.last_active_phase_at {
        Some(last) => !has_passed(now, last, OVERLAY_HIDE_DELAY_MS),
        None => false,
    }
}

/// Changed settings are to be kept now.
pub open spec fn save_due(s: SaveState, force: bool, now: u64) -> bool {
    s.dirty && (force || match s.last_save_at {
        Some(last) => has_passed(now, last, AUTOSAVE_GAP_MS),
        None => true,
    })
}

/// Changed settings have been kept, if they were to be.
pub open spec fn autosaved(s: SaveState, force: bool, now: u64) -> SaveState {
    if save_due(s, force, now) {
        SaveState { dirty: false, last_save_at: Some(now) }
    } else {
        s
    }
}

/// What a look at the hold button asks for.
#[derive(Debug, Clone, Copy, PartialEq, Eq, Structural)]
pub enum HoldAsk {
    Nothing,
    Start,
    Stop,
}

/// The session that a hold asked for has begun: the hold owns it.
pub open spec fn hold_noted(h: HoldState, phase: Seq<char>) -> HoldState {
    if h.start_requested && phase == "recording"@ {
        HoldState { start_requested: false, owns_session: true, ..h }
    } else {
        h
    }
}

/// The hold was over before its session began: the session is to be stopped.
pub open spec fn stops_late(h: HoldState, phase: Seq<char>) -> bool {
    h.pending_stop_after_start && phase == "recording"@
}

/// The hold after its session was noted and, where it began too late, stopped.
pub open spec fn hold_confirmed(h: HoldState, phase: Seq<char>) -> HoldState {
    let noted = hold_noted(h, phase);
    if stops_late(noted, phase) {
        HoldState { pending_stop_after_start: false, owns_session: false, ..noted }
    } else {
        noted
    }
}

/// The button is pressed now and was not before.
pub open spec fn press_noted(h: HoldState, is_down: bool, now: u64) -> HoldState {
    if is_down && !h.button_down {
        HoldState { press_started_at: Some(now), pending_stop_after_start: false, ..h }
    } else {
        h
    }
}

/// The button has been held long enough.
pub open spec fn held_long(h: HoldState, delay_ms: u64, now: u64) -> bool {
    match h.press_started_at {
        Some(started) => has_passed(now, started, delay_ms),
        None => delay_ms == 0,
    }
}

/// A hold asks for a session: the button is held long enough, nothing is going on, and none was
/// asked for yet.
pub open spec fn hold_starts(
    h: HoldState,
    delay_ms: u64,
    phase: Seq<char>,
    is_down: bool,
    now: u64,
) -> bool {
    is_down && !h.owns_session && !h.start_requested && held_long(h, delay_ms, now) && !is_active(
        phase,
    )
}

/// The hold after the button was let go of. If its session was asked for and has not begun, it is
/// to be stopped as soon as it does.
pub open spec fn let_go(h: HoldState, phase: Seq<char>) -> HoldState {
    HoldState {
        button_down: false,
        owns_session: false,
        start_requested: false,
        pending_stop_after_start: h.pending_stop_after_start || (h.start_requested && !(
        h.owns_session && phase == "recording"@)),
        press_started_at: None,
    }
}

/// The hold after a look at the button.
pub open spec fn hold_after(
    h: HoldState,
    delay_ms: u64,
    phase: Seq<char>,
    is_down: bool,
    now: u64,
) -> HoldState {
    let b = press_noted(hold_confirmed(h, phase), is_down, now);
    if is_down {
        HoldState {
            button_down: true,
            start_requested: b.start_requested || hold_starts(b, delay_ms, phase, is_down, now),
            ..b
        }
    } else if b.button_down {
        let_go(b, phase)
    } else {
        b
    }
}

/// What a look at the button asks for.
pub open spec fn hold_ask(
    h: HoldState,
    delay_ms: u64,
    phase: Seq<char>,
    is_down: bool,
    now: u64,
) -> HoldAsk {
    let b = press_noted(hold_confirmed(h, phase), is_down, now);
    if stops_late(hold_noted(h, phase), phase) {
        HoldAsk::Stop
    } else if hold_starts(b, delay_ms, phase, is_down, now) {
        HoldAsk::Start
    } else if !is_down && b.button_down && b.owns_session && phase == "recording"@ {
        HoldAsk::Stop
    } else {
        HoldAsk::Nothing
    }
}

impl HoldState {
    /// No hold is in progress.
    pub fn none() -> (r: HoldState)
        ensures
            r == no_hold(),
    {
        HoldState {
            button_down: false,
            owns_session: false,
            start_requested: false,
            pending_stop_after_start: false,
            press_started_at: None,
        }
    }

    /// Follows the button: `is_down` says whether it is pressed now. Returned is what is asked of
    /// the service.
    pub fn look(&mut self, delay_ms: u64, phase: &str, is_down: bool, now: u64) -> (r: HoldAsk)
        ensures
            *final(self) == hold_after(*old(self), delay_ms, phase@, is_down, now),
            r == hold_ask(*old(self), delay_ms, phase@, is_down, now),
    {
        let is_recording = text::same(phase, "recording");
        let is_processing = text::same(phase, "processing");
        let mut ask = HoldAsk::Nothing;
        if self.start_requested && is_recording {
            self.start_requested = false;
            self.owns_session = true;
        }
        if self.pending_stop_after_start && is_recording {
            ask = HoldAsk::Stop;
            self.pending_stop_after_start = false;
            self.owns_session = false;
        }
        if is_down && !self.button_down {
            self.press_started_at = Some(now);
            self.pending_stop_after_start = false;
        }
        if is_down && !self.owns_session && !self.start_requested {
            let ready = match self.press_started_at {
                Some(started) => passed(now, started, delay_ms),
                None => delay_ms == 0,
            };
            if ready && !is_recording && !is_processing {
                ask = HoldAsk::Start;
                self.start_requested = true;
            }
        }
        if !is_down && self.button_down {
            if self.owns_session && is_recording {
                ask = HoldAsk::Stop;
            } else if self.start_requested {
                self.pending_stop_after_start = true;
            }
            self.owns_session = false;
            self.start_requested = false;
            self.press_started_at = None;
        }
        self.button_down = is_down;
        ask
    }
}

impl OverlayApp {
    /// The overlay as it starts: nothing is held, the settings are closed, the window is shown.
    pub fn new(ui_cfg: OverlayAppUiConfig) -> (r: OverlayApp)
        ensures
            r == (OverlayApp {
                urls: ui_cfg.urls,
                labels: ui_cfg.labels,
                engine_mode: ui_cfg.engine_mode,
                settings: ui_cfg.settings,
                output: ui_cfg.output,
                hold: no_hold(),
                last_request_at: None,
                show_settings: false,
                saving: SaveState { dirty: false, last_save_at: None },
                window: WindowState {
                    visible: true,
                    has_seen_active_phase: false,
                    last_active_phase_at: None,
                },
            }),
    {
        OverlayApp {
            urls: ui_cfg.urls,
            labels: ui_cfg.labels,
            engine_mode: ui_cfg.engine_mode,
            settings: ui_cfg.settings,
            output: ui_cfg.output,
            hold: HoldState::none(),
            last_request_at: None,
            show_settings: false,
            saving: SaveState { dirty: false, last_save_at: None },
            window: WindowState {
                visible: true,
                has_seen_active_phase: false,
                last_active_phase_at: None,
            },
        }
    }

    /// Forgets a hold in progress.
    pub fn reset_hold_state(&mut self)
        ensures
            *final(self) == (OverlayApp { hold: no_hold(), ..*old(self) }),
    {
        self.hold = HoldState::none();
    }

    /// Chooses how the record control is operated. A hold in progress is forgotten when that
    /// changes.
    pub fn set_control_mode(&mut self, mode: InputControlMode)
        ensures
            *final(self) == (if old(self).settings.control_mode == mode {
                *old(self)
            } else {
                OverlayApp {
                    settings: OverlaySettingsUpdate { control_mode: mode, ..old(self).settings },
                    hold: no_hold(),
                    ..*old(self)
                }
            }),
    {
        if self.settings.control_mode != mode {
            self.settings.control_mode = mode;
            self.reset_hold_state();
        }
    }

    /// Asks the service to start or stop.
    pub fn request_toggle_action(&mut self, state: &mut OverlayState, now: u64) -> (r: Option<
        ControlRequest,
    >)
        ensures
            requested(*old(self), *final(self), Some(old(self).urls.toggle@), r, now),
            final(state)@ == toggling(old(state)@, r is Some),
            old(state).wf() ==> final(state).wf(),
    {
        let url = self.urls.toggle.clone();
        self.request_control_action(state, url, now)
    }

    /// Asks the service to start.
    pub fn request_start_action(&mut self, state: &mut OverlayState, now: u64) -> (r: Option<
        ControlRequest,
    >)
        ensures
            requested(*old(self), *final(self), Some(old(self).urls.start@), r, now),
            final(state)@ == toggling(old(state)@, r is Some),
            old(state).wf() ==> final(state).wf(),
    {
        let url = self.urls.start.clone();
        self.request_control_action(state, url, now)
    }

    /// Asks the service to stop.
    pub fn request_stop_action(&mut self, state: &mut OverlayState, now: u64) -> (r: Option<
        ControlRequest,
    >)
        ensures
            requested(*old(self), *final(self), Some(old(self).urls.stop@), r, now),
            final(state)@ == toggling(old(state)@, r is Some),
            old(state).wf() ==> final(state).wf(),
    {
        let url = self.urls.stop.clone();
        self.request_control_action(state, url, now)
    }

    /// The request to make, unless the last one was made only a moment ago.
    pub fn request_control_action(
        &mut self,
        state: &mut OverlayState,
        url: String,
        now: u64,
    ) -> (r: Option<ControlRequest>)
        ensures
            requested(*old(self), *final(self), Some(url@), r, now),
            final(state)@ == toggling(old(state)@, r is Some),
            old(state).wf() ==> final(state).wf(),
    {
        let may = match self.last_request_at {
            Some(last) => passed(now, last, REQUEST_GAP_MS),
            None => true,
        };
        if !may {
            return None;
        }
        self.last_request_at = Some(now);
        state.status_line = "Toggling...".to_owned();
        Some(
            ControlRequest {
                url,
                body: ToggleBody {
                    copy_to_clipboard: Some(self.output.copy_to_clipboard),
                    auto_paste: Some(self.output.auto_paste),
                    append_newline: Some(self.output.append_newline),
                    send_enter: Some(self.output.send_enter),
                },
            },
        )
    }

    /// What is done with a final text.
    pub fn output_mode(&self) -> (r: OutputMode)
        ensures
            r == modes::output_of_flags(self.output),
    {
        output_mode_from_flags(
            self.output.copy_to_clipboard,
            self.output.auto_paste,
            self.output.append_newline,
            self.output.send_enter,
        )
    }

    /// Chooses the next thing to do with a final text, which is returned.
    pub fn cycle_final_action_mode(&mut self) -> (r: OutputMode)
        ensures
            r == modes::next_output(modes::output_of_flags(old(self).output)),
            *final(self) == (OverlayApp { output: modes::output_flags(r), ..*old(self) }),
    {
        let next_mode = self.output_mode().next();
        let (copy_to_clipboard, auto_paste, append_newline, send_enter) = next_mode.flags();
        self.output =
        OutputModeState { copy_to_clipboard, auto_paste, append_newline, send_enter };
        next_mode
    }

    /// Chooses the other engine, which is returned.
    pub fn cycle_engine_mode(&mut self) -> (r: EngineMode)
        ensures
            r == modes::other_engine(old(self).engine_mode),
            *final(self) == (OverlayApp { engine_mode: r, ..*old(self) }),
    {
        self.engine_mode = self.engine_mode.toggled();
        self.engine_mode
    }

    /// The model of the engine in use.
    pub fn active_model_label(&self) -> (r: &str)
        ensures
            r@ == (match self.engine_mode {
                EngineMode::Streaming => self.labels.streaming_model@,
                EngineMode::Batch => self.labels.batch_model@,
            }),
    {
        match self.engine_mode {
            EngineMode::Streaming => self.labels.streaming_model.as_str(),
            EngineMode::Batch => self.labels.batch_model.as_str(),
        }
    }

    /// Where the engine in use runs.
    pub fn active_source_label(&self) -> (r: &str)
        ensures
            r@ == (match self.engine_mode {
                EngineMode::Streaming => self.labels.streaming_source@,
                EngineMode::Batch => self.labels.batch_source@,
            }),
    {
        match self.engine_mode {
            EngineMode::Streaming => self.labels.streaming_source.as_str(),
            EngineMode::Batch => self.labels.batch_source.as_str(),
        }
    }

    /// The settings to be kept.
    pub fn save_settings(&self) -> (r: OverlaySettingsUpdate)
        ensures
            r == self.settings,
    {
        self.settings
    }

    /// A setting was changed.
    pub fn mark_settings_dirty(&mut self)
        ensures
            *final(self) == (OverlayApp {
                saving: SaveState { dirty: true, ..old(self).saving },
                ..*old(self)
            }),
    {
        self.saving.dirty = true;
    }

    /// Whether the settings are to be kept now. `force` keeps changed settings however little time
    /// has gone by since they were last kept.
    pub fn maybe_autosave_settings(&mut self, force: bool, now: u64) -> (r: bool)
        ensures
            r == save_due(old(self).saving, force, now),
            *final(self) == (OverlayApp {
                saving: autosaved(old(self).saving, force, now),
                ..*old(self)
            }),
    {
        if !self.saving.dirty {
            return false;
        }
        let due = force || match self.saving.last_save_at {
            Some(last) => passed(now, last, AUTOSAVE_GAP_MS),
            None => true,
        };
        if due {
            self.saving = SaveState { dirty: false, last_save_at: Some(now) };
        }
        due
    }

    /// The settings are kept because that was asked for.
    pub fn settings_kept(&mut self, now: u64)
        ensures
            *final(self) == (OverlayApp {
                saving: SaveState { dirty: false, last_save_at: Some(now) },
                ..*old(self)
            }),
    {
        self.saving = SaveState { dirty: false, last_save_at: Some(now) };
    }

    /// The settings button: opens the settings and shows the window, or closes the settings.
    /// Returned is whether the settings are to be kept now, and whether the window is to be shown.
    pub fn settings_button(&mut self, now: u64) -> (r: (bool, bool))
        ensures
            r.0 == (old(self).show_settings && save_due(old(self).saving, true, now)),
            r.1 == (!old(self).show_settings && !old(self).window.visible),
            *final(self) == (if old(self).show_settings {
                OverlayApp {
                    show_settings: false,
                    saving: autosaved(old(self).saving, true, now),
                    ..*old(self)
                }
            } else {
                OverlayApp {
                    show_settings: true,
                    window: WindowState { visible: true, ..old(self).window },
                    ..*old(self)
                }
            }),
    {
        if self.show_settings {
            let save = self.maybe_autosave_settings(true, now);
            self.show_settings = false;
            (save, false)
        } else {
            let show = !self.window.visible;
            self.show_settings = true;
            self.window.visible = true;
            (false, show)
        }
    }

    /// The open settings were looked at: something in them may have changed, and they may have been
    /// closed. Returned is whether they are to be kept now.
    pub fn settings_looked_at(&mut self, changed: bool, closed: bool, now: u64) -> (r: bool)
        ensures
            ({
                let saving = SaveState {
                    dirty: old(self).saving.dirty || changed,
                    ..old(self).saving
                };
                &&& r == save_due(saving, closed, now)
                &&& *final(self) == (OverlayApp {
                    show_settings: old(self).show_settings && !closed,
                    saving: autosaved(saving, closed, now),
                    ..*old(self)
                })
            }),
    {
        if changed {
            self.mark_settings_dirty();
        }
        if closed {
            self.show_settings = false;
        }
        self.maybe_autosave_settings(closed, now)
    }

    /// Whether the window is to be shown or hidden, if it is to change.
    pub fn sync_overlay_visibility(&mut self, phase: &str, now: u64) -> (r: Option<bool>)
        ensures
            ({
                let w = activity_noted(old(self).window, phase@, now);
                let visible = to_be_visible(w, old(self).show_settings, phase@, now);
                &&& *final(self) == (OverlayApp { window: WindowState { visible, ..w }, ..*old(self)
                })
                &&& r == (if visible == old(self).window.visible {
                    None
                } else {
                    Some(visible)
                })
            }),
    {
        let active = text::same(phase, "recording") || text::same(phase, "processing");
        if active {
            self.window.has_seen_active_phase = true;
            self.window.last_active_phase_at = Some(now);
        }
        let visible = if self.show_settings || active || !self.window.has_seen_active_phase {
            true
        } else {
            match self.window.last_active_phase_at {
                Some(last) => !passed(now, last, OVERLAY_HIDE_DELAY_MS),
                None => false,
            }
        };
        if visible != self.window.visible {
            self.window.visible = visible;
            Some(visible)
        } else {
            None
        }
    }

    /// Follows the hold button: `is_down` says whether it is pressed now. Where the record control is
    /// not operated by holding, a hold in progress is forgotten. While the settings are open there is
    /// no button, and nothing happens. Returned is the request that is to be made.
    pub fn hold_button(
        &mut self,
        state: &mut OverlayState,
        phase: &str,
        is_down: bool,
        now: u64,
    ) -> (r: Option<ControlRequest>)
        ensures
            old(self).show_settings ==> r is None && *final(self) == *old(self),
            !old(self).show_settings ==> ({
                let delay = old(self).settings.ptt_activation_delay_ms;
                let holding = old(self).settings.control_mode == InputControlMode::Hold;
                let ask = if holding {
                    hold_ask(old(self).hold, delay, phase@, is_down, now)
                } else {
                    HoldAsk::Nothing
                };
                let hold = if holding {
                    hold_after(old(self).hold, delay, phase@, is_down, now)
                } else {
                    no_hold()
                };
                requested(
                    OverlayApp { hold, ..*old(self) },
                    *final(self),
                    asked_url(old(self).urls, ask),
                    r,
                    now,
                )
            }),
            final(state)@ == toggling(old(state)@, r is Some),
            old(state).wf() ==> final(state).wf(),
    {
        if self.show_settings {
            return None;
        }
        if self.settings.control_mode != InputControlMode::Hold {
            self.reset_hold_state();
            return None;
        }
        let delay: u64 = self.settings.ptt_activation_delay_ms;
        let ask = self.hold.look(delay, phase, is_down, now);
        match ask {
            HoldAsk::Nothing => None,
            HoldAsk::Start => self.request_start_action(state, now),
            HoldAsk::Stop => self.request_stop_action(state, now),
        }
    }
}

/// The address that is asked.
pub open spec fn asked_url(urls: ControlUrls, ask: HoldAsk) -> Option<Seq<char>> {
    match ask {
        HoldAsk::Nothing => None,
        HoldAsk::Start => Some(urls.start@),
        HoldAsk::Stop => Some(urls.stop@),
    }
}

/// The address was asked, if any was wanted and the last request is long enough ago, and nothing
/// else has changed.
pub open spec fn requested(
    before: OverlayApp,
    after: OverlayApp,
    wanted: Option<Seq<char>>,
    r: Option<ControlRequest>,
    now: u64,
) -> bool {
    &&& is_request(r, wanted, before.last_request_at, now, before.output)
    &&& after == OverlayApp {
        last_request_at: if wanted is Some {
            asked(before.last_request_at, now)
        } else {
            before.last_request_at
        },
        ..before
    }
}

/// The button has been held since `since`, and no session was asked for yet.
pub open spec fn waiting(h: HoldState, since: u64) -> bool {
    h == HoldState {
        button_down: true,
        owns_session: false,
        start_requested: false,
        pending_stop_after_start: false,
        press_started_at: Some(since),
    }
}

/// Quick taps are ignored: as long as the button is held for less than the delay, nothing is asked
/// for, whatever the phase, and letting go of it leaves no hold in progress.
pub proof fn quick_taps_are_ignored(
    h: HoldState,
    since: u64,
    delay_ms: u64,
    phase: Seq<char>,
    is_down: bool,
    now: u64,
)
    requires
        h == no_hold() && since == now && is_down || waiting(h, since),
        !has_passed(now, since, delay_ms),
    ensures
        hold_ask(h, delay_ms, phase, is_down, now) == HoldAsk::Nothing,
        is_down ==> waiting(hold_after(h, delay_ms, phase, is_down, now), since),
        !is_down ==> hold_after(h, delay_ms, phase, is_down, now) == no_hold(),
{
}

/// A button that is held for the delay while nothing goes on asks for a session, and asks for it
/// once; when the session is there and the button is let go of, the session is asked to stop.
pub proof fn holding_brackets_the_session(
    h: HoldState,
    since: u64,
    delay_ms: u64,
    quiet: Seq<char>,
    now: u64,
    later: u64,
    end: u64,
)
    requires
        waiting(h, since),
        has_passed(now, since, delay_ms),
        !is_active(quiet),
    ensures
        ({
            let begun = hold_after(h, delay_ms, quiet, true, now);
            let still = hold_after(begun, delay_ms, quiet, true, later);
            let owned = hold_after(begun, delay_ms, "recording"@, true, later);
            &&& hold_ask(h, delay_ms, quiet, true, now) == HoldAsk::Start
            &&& still == begun && hold_ask(begun, delay_ms, quiet, true, later) == HoldAsk::Nothing
            &&& hold_ask(begun, delay_ms, "recording"@, true, later) == HoldAsk::Nothing
            &&& hold_ask(owned, delay_ms, "recording"@, false, end) == HoldAsk::Stop
            &&& hold_after(owned, delay_ms, "recording"@, false, end) == no_hold()
        }),
{
}

/// A button that is let go of after a session was asked for, but before it began, asks the session
/// to stop as soon as it has begun.
pub proof fn early_release_stops_the_session(
    h: HoldState,
    since: u64,
    delay_ms: u64,
    quiet: Seq<char>,
    now: u64,
    later: u64,
    end: u64,
)
    requires
        waiting(h, since),
        has_passed(now, since, delay_ms),
        !is_active(quiet),
    ensures
        ({
            let begun = hold_after(h, delay_ms, quiet, true, now);
            let released = hold_after(begun, delay_ms, quiet, false, later);
            &&& hold_ask(begun, delay_ms, quiet, false, later) == HoldAsk::Nothing
            &&& hold_ask(released, delay_ms, quiet, false, end) == HoldAsk::Nothing
            &&& hold_after(released, delay_ms, quiet, false, end) == released
            &&& hold_ask(released, delay_ms, "recording"@, false, end) == HoldAsk::Stop
            &&& hold_after(released, delay_ms, "recording"@, false, end) == no_hold()
        }),
{
}

/// Of two requests that follow each other within the gap, only the first is made.
pub proof fn requests_keep_their_distance(
    before: OverlayApp,
    between: OverlayApp,
    after: OverlayApp,
    first: Option<ControlRequest>,
    second: Option<ControlRequest>,
    url: Seq<char>,
    wanted: Option<Seq<char>>,
    now: u64,
    later: u64,
)
    requires
        requested(before, between, Some(url), first, now),
        requested(between, after, wanted, second, later),
        first is Some,
        !has_passed(later, now, REQUEST_GAP_MS),
    ensures
        second is None,
        after == between,
{
}

/// The window stays for a while after the last activity, and is gone afterwards unless the settings
/// are open.
pub proof fn window_lingers(w: WindowState, active: Seq<char>, quiet: Seq<char>, then: u64, now: u64)
    requires
        is_active(active),
        !is_active(quiet),
    ensures
        to_be_visible(activity_noted(w, active, then), false, active, then),
        to_be_visible(activity_noted(w, active, then), false, quiet, now) == !has_passed(
            now,
            then,
            OVERLAY_HIDE_DELAY_MS,
        ),
        to_be_visible(activity_noted(w, active, then), true, quiet, now),
{
}

/// Closing the settings keeps every change that was made in them.
pub proof fn closing_keeps_changes(s: SaveState, now: u64)
    ensures
        s.dirty ==> save_due(s, true, now),
        !autosaved(s, true, now).dirty,
{
}

} // verus!
