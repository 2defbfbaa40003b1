//! Laws of how the overlay is operated.
use vstd::prelude::*;
use vstd::string::*;

use crate::overlay::app::{
    ControlRequest, HoldAsk, HoldState, OverlayApp, OverlayAppUiConfig, OverlaySettingsUpdate,
    SaveState, WindowState,
};
use crate::overlay::modes::{
    self, EngineMode, InputControlMode, OutputMode, OutputModeState,
};
use crate::overlay::state::{OverlayState, OverlayView};

verus! {

/// This many milliseconds lie between the two times, which are nanoseconds; none do where the second
/// lies before the first.
pub open spec fn ms_apart(since: u64, now: u64, ms: int) -> bool {
    if now >= since {
        (now - since) >= ms * 1_000_000
    } else {
        ms <= 0
    }
}

/// The button asks for a session where it is pressed, has been pressed for the whole delay, nothing
/// is recorded or processed, and no session was asked for or begun by it yet. It asks for the end of
/// the session while that is recorded, where the button was let go of now or had been before.
pub proof fn hold_asks_for_sessions(
    h: &mut HoldState,
    delay_ms: u64,
    phase: &str,
    is_down: bool,
    now: u64,
    r: HoldAsk,
)
    requires
        call_ensures(HoldState::look, (h, delay_ms, phase, is_down, now), r),
    ensures
        ({
            let recording = phase@ == "recording"@;
            let quiet = !recording && phase@ != "processing"@;
            let pressed_at = if old(h).button_down {
                old(h).press_started_at
            } else {
                Some(now)
            };
            let held = match pressed_at {
                Some(t) => ms_apart(t, now, delay_ms as int),
                None => delay_ms == 0,
            };
            &&& r == HoldAsk::Start <==> is_down && quiet && held && !old(h).owns_session && !old(h).start_requested
            &&& r == HoldAsk::Stop <==> recording && (old(h).pending_stop_after_start || !is_down
                && old(h).button_down && (old(h).owns_session || old(h).start_requested))
        }),
{
    reveal_strlit("recording");
    reveal_strlit("processing");
    assert("recording"@.len() != "processing"@.len());
}

/// A hold remembers whether the button is pressed and since when, whether a session was asked for and
/// has begun, and whether it is to end as soon as it begins.
pub proof fn hold_is_remembered(
    h: &mut HoldState,
    delay_ms: u64,
    phase: &str,
    is_down: bool,
    now: u64,
    r: HoldAsk,
)
    requires
        call_ensures(HoldState::look, (h, delay_ms, phase, is_down, now), r),
    ensures
        ({
            let recording = phase@ == "recording"@;
            let pressed = is_down && !old(h).button_down;
            let released = !is_down && old(h).button_down;
            let waits = old(h).start_requested && !recording;
            let late = old(h).pending_stop_after_start && recording;
            &&& final(h).button_down == is_down
            &&& pressed ==> final(h).press_started_at == Some(now)
            &&& released ==> final(h).press_started_at is None
            &&& !pressed && !released ==> final(h).press_started_at == old(h).press_started_at
            &&& final(h).owns_session == (!released && !late && (old(h).owns_session || (old(h).start_requested && recording)))
            &&& final(h).start_requested == (!released && (waits || r == HoldAsk::Start))
            &&& final(h).pending_stop_after_start == (if pressed {
                false
            } else if released {
                waits || (old(h).pending_stop_after_start && !recording)
            } else {
                old(h).pending_stop_after_start && !recording
            })
        }),
{
    reveal_strlit("recording");
    reveal_strlit("processing");
    assert("recording"@.len() != "processing"@.len());
}

/// The request goes to this address and asks for what is to be done with the text.
pub open spec fn asks(r: ControlRequest, url: Seq<char>, output: OutputModeState) -> bool {
    &&& r.url@ == url
    &&& r.body.copy_to_clipboard == Some(output.copy_to_clipboard)
    &&& r.body.auto_paste == Some(output.auto_paste)
    &&& r.body.append_newline == Some(output.append_newline)
    &&& r.body.send_enter == Some(output.send_enter)
}

/// A request is possible: there was none, or at least 150 milliseconds have gone by since.
pub open spec fn may_request(a: OverlayApp, now: u64) -> bool {
    a.last_request_at matches Some(t) ==> ms_apart(t, now, 150)
}

/// The request was made if that was possible, and then is shown and noted; else nothing has changed.
pub open spec fn requests(
    before: OverlayApp,
    after: OverlayApp,
    shown: OverlayView,
    shown_after: OverlayView,
    url: Seq<char>,
    now: u64,
    r: Option<ControlRequest>,
) -> bool {
    if may_request(before, now) {
        &&& r is Some && asks(r->0, url, before.output)
        &&& after == OverlayApp { last_request_at: Some(now), ..before }
        &&& shown_after == OverlayView { status_line: "Toggling..."@, ..shown }
    } else {
        r is None && after == before && shown_after == shown
    }
}

/// A request goes to the address that it is meant for, with what is to be done with the text, unless
/// the last one was made within 150 milliseconds.
pub proof fn requests_are_made(
    a: &mut OverlayApp,
    b: &mut OverlayApp,
    c: &mut OverlayApp,
    d: &mut OverlayApp,
    sa: &mut OverlayState,
    sb: &mut OverlayState,
    sc: &mut OverlayState,
    sd: &mut OverlayState,
    url: String,
    now: u64,
    ra: Option<ControlRequest>,
    rb: Option<ControlRequest>,
    rc: Option<ControlRequest>,
    rd: Option<ControlRequest>,
)
    requires
        call_ensures(OverlayApp::request_toggle_action, (a, sa, now), ra),
        call_ensures(OverlayApp::request_start_action, (b, sb, now), rb),
        call_ensures(OverlayApp::request_stop_action, (c, sc, now), rc),
        call_ensures(OverlayApp::request_control_action, (d, sd, url, now), rd),
    ensures
        requests(*old(a), *final(a), old(sa)@, final(sa)@, old(a).urls.toggle@, now, ra),
        requests(*old(b), *final(b), old(sb)@, final(sb)@, old(b).urls.start@, now, rb),
        requests(*old(c), *final(c), old(sc)@, final(sc)@, old(c).urls.stop@, now, rc),
        requests(*old(d), *final(d), old(sd)@, final(sd)@, url@, now, rd),
{
}

/// The hold button, where holding is how the record control is operated and the settings are
/// closed, makes the request that the hold asks for; where the control is operated otherwise, a hold
/// is forgotten; under open settings nothing happens.
pub proof fn hold_button_makes_requests(
    a: &mut OverlayApp,
    s: &mut OverlayState,
    phase: &str,
    is_down: bool,
    now: u64,
    r: Option<ControlRequest>,
    h: &mut HoldState,
    ask: HoldAsk,
)
    requires
        call_ensures(OverlayApp::hold_button, (a, s, phase, is_down, now), r),
        call_ensures(
            HoldState::look,
            (h, old(a).settings.ptt_activation_delay_ms, phase, is_down, now),
            ask,
        ),
        *old(h) == old(a).hold,
    ensures
        old(a).show_settings ==> r is None && *final(a) == *old(a) && final(s)@ == old(s)@,
        !old(a).show_settings && old(a).settings.control_mode == InputControlMode::Toggle ==> r is None
            && final(s)@ == old(s)@ && final(a).hold == (HoldState {
            button_down: false,
            owns_session: false,
            start_requested: false,
            pending_stop_after_start: false,
            press_started_at: None,
        }) && *final(a) == (OverlayApp { hold: final(a).hold, ..*old(a) }),
        !old(a).show_settings && old(a).settings.control_mode == InputControlMode::Hold ==> {
            let held = OverlayApp { hold: *final(h), ..*old(a) };
            match ask {
                HoldAsk::Nothing => r is None && *final(a) == held && final(s)@ == old(s)@,
                HoldAsk::Start => requests(
                    held,
                    *final(a),
                    old(s)@,
                    final(s)@,
                    old(a).urls.start@,
                    now,
                    r,
                ),
                HoldAsk::Stop => requests(
                    held,
                    *final(a),
                    old(s)@,
                    final(s)@,
                    old(a).urls.stop@,
                    now,
                    r,
                ),
            }
        },
{
}

/// The window is shown while the settings are open, while something is recorded or processed and
/// less than 1.3 seconds after that, and as long as there never was any of it. Only a change is
/// told, and nothing else of the overlay changes.
pub proof fn window_follows_the_activity(
    a: &mut OverlayApp,
    phase: &str,
    now: u64,
    r: Option<bool>,
)
    requires
        call_ensures(OverlayApp::sync_overlay_visibility, (a, phase, now), r),
    ensures
        ({
            let active = phase@ == "recording"@ || phase@ == "processing"@;
            let w = old(a).window;
            let lingers = w.last_active_phase_at matches Some(t) && !ms_apart(t, now, 1300);
            let shown = old(a).show_settings || active || !w.has_seen_active_phase || lingers;
            let after = final(a).window;
            &&& after.visible == shown
            &&& after.has_seen_active_phase == (w.has_seen_active_phase || active)
            &&& active ==> after.last_active_phase_at == Some(now)
            &&& !active ==> after.last_active_phase_at == w.last_active_phase_at
            &&& r is Some <==> shown != w.visible
            &&& r is Some ==> r == Some(shown)
            &&& *final(a) == OverlayApp { window: after, ..*old(a) }
        }),
{
}

/// Changed settings are kept at once where that is forced, and else no sooner than 320 milliseconds
/// after they were last kept; settings that did not change are not kept.
pub open spec fn is_due(s: SaveState, force: bool, now: u64) -> bool {
    s.dirty && (force || (s.last_save_at matches Some(t) ==> ms_apart(t, now, 320)))
}

/// Settings are kept when they are due, and are then no longer changed ones.
pub proof fn changed_settings_are_kept(
    a: &mut OverlayApp,
    b: &mut OverlayApp,
    c: &mut OverlayApp,
    d: &mut OverlayApp,
    force: bool,
    changed: bool,
    now: u64,
    r: bool,
    looked: bool,
)
    requires
        call_ensures(OverlayApp::maybe_autosave_settings, (a, force, now), r),
        call_ensures(OverlayApp::settings_looked_at, (b, changed, force, now), looked),
        call_ensures(OverlayApp::mark_settings_dirty, (c,), ()),
        call_ensures(OverlayApp::settings_kept, (d, now), ()),
    ensures
        r == is_due(old(a).saving, force, now),
        final(a).saving == (if r {
            SaveState { dirty: false, last_save_at: Some(now) }
        } else {
            old(a).saving
        }),
        *final(a) == (OverlayApp { saving: final(a).saving, ..*old(a) }),
        looked == is_due(
            SaveState { dirty: old(b).saving.dirty || changed, ..old(b).saving },
            force,
            now,
        ),
        final(b).saving.dirty == ((old(b).saving.dirty || changed) && !looked),
        final(b).saving.last_save_at == (if looked {
            Some(now)
        } else {
            old(b).saving.last_save_at
        }),
        final(b).show_settings == (old(b).show_settings && !force),
        *final(b) == (OverlayApp {
            saving: final(b).saving,
            show_settings: final(b).show_settings,
            ..*old(b)
        }),
        final(c).saving.dirty,
        final(c).saving.last_save_at == old(c).saving.last_save_at,
        *final(c) == (OverlayApp { saving: final(c).saving, ..*old(c) }),
        final(d).saving == (SaveState { dirty: false, last_save_at: Some(now) }),
        *final(d) == (OverlayApp { saving: final(d).saving, ..*old(d) }),
{
}

/// The settings button opens the settings, with the window, or closes them, and then changed ones
/// are kept.
pub proof fn settings_open_and_close(a: &mut OverlayApp, now: u64, r: (bool, bool))
    requires
        call_ensures(OverlayApp::settings_button, (a, now), r),
    ensures
        final(a).show_settings == !old(a).show_settings,
        old(a).show_settings ==> r.0 == old(a).saving.dirty && !r.1 && !final(a).saving.dirty
            && final(a).window == old(a).window,
        !old(a).show_settings ==> !r.0 && r.1 == !old(a).window.visible && final(a).window.visible
            && final(a).saving == old(a).saving,
        final(a).window.has_seen_active_phase == old(a).window.has_seen_active_phase,
        final(a).window.last_active_phase_at == old(a).window.last_active_phase_at,
        *final(a) == (OverlayApp {
            show_settings: final(a).show_settings,
            window: final(a).window,
            saving: final(a).saving,
            ..*old(a)
        }),
{
}

/// Another way to operate the record control forgets a hold; the same way changes nothing.
pub proof fn control_mode_is_chosen(
    a: &mut OverlayApp,
    b: &mut OverlayApp,
    mode: InputControlMode,
)
    requires
        call_ensures(OverlayApp::set_control_mode, (a, mode), ()),
        call_ensures(OverlayApp::reset_hold_state, (b,), ()),
    ensures
        final(a).settings.control_mode == mode,
        old(a).settings.control_mode == mode ==> *final(a) == *old(a),
        old(a).settings.control_mode != mode ==> !final(a).hold.button_down && !final(a).hold.owns_session && !final(a).hold.start_requested && !final(a).hold.pending_stop_after_start && final(a).hold.press_started_at is None,
        *final(a) == (OverlayApp { settings: final(a).settings, hold: final(a).hold, ..*old(a) }),
        final(a).settings == (OverlaySettingsUpdate { control_mode: mode, ..old(a).settings }),
        !final(b).hold.button_down && !final(b).hold.owns_session && !final(b).hold.start_requested
            && !final(b).hold.pending_stop_after_start && final(b).hold.press_started_at is None,
        *final(b) == (OverlayApp { hold: final(b).hold, ..*old(b) }),
{
}

/// The overlay starts with what it was given: nothing is held, asked for or to be kept, the settings
/// are closed and the window is shown.
pub proof fn overlay_starts_as_configured(c: OverlayAppUiConfig, r: OverlayApp)
    requires
        call_ensures(OverlayApp::new, (c,), r),
    ensures
        r.urls == c.urls && r.labels == c.labels && r.engine_mode == c.engine_mode,
        r.settings == c.settings && r.output == c.output,
        !r.hold.button_down && !r.hold.owns_session && !r.hold.start_requested
            && !r.hold.pending_stop_after_start && r.hold.press_started_at is None,
        r.last_request_at is None && !r.show_settings,
        !r.saving.dirty && r.saving.last_save_at is None,
        r.window == (WindowState {
            visible: true,
            has_seen_active_phase: false,
            last_active_phase_at: None,
        }),
{
}

/// What a mode does: it copies unless nothing is put out, pastes where its name says so, presses
/// Enter where its name says so, and never adds a newline.
pub open spec fn does(mode: OutputMode, f: (bool, bool, bool, bool)) -> bool {
    match mode {
        OutputMode::CopyAndPaste => f.0 && f.1 && !f.2 && !f.3,
        OutputMode::CopyOnly => f.0 && !f.1 && !f.2 && !f.3,
        OutputMode::PasteAndEnter => f.0 && f.1 && !f.2 && f.3,
        OutputMode::NoOutput => !f.0 && !f.1 && !f.2 && !f.3,
    }
}

/// The modes follow each other in a fixed round, and each is told by what it does.
pub proof fn output_modes_are_told(
    mode: OutputMode,
    label: &'static str,
    next: OutputMode,
    f: (bool, bool, bool, bool),
    back: OutputMode,
)
    requires
        call_ensures(OutputMode::label, (mode,), label),
        call_ensures(OutputMode::next, (mode,), next),
        call_ensures(OutputMode::flags, (mode,), f),
        call_ensures(modes::output_mode_from_flags, (f.0, f.1, f.2, f.3), back),
    ensures
        does(mode, f),
        back == mode,
        mode == OutputMode::CopyAndPaste ==> label@ == "Copy + paste"@ && next
            == OutputMode::PasteAndEnter,
        mode == OutputMode::PasteAndEnter ==> label@ == "Paste + Enter"@ && next
            == OutputMode::CopyOnly,
        mode == OutputMode::CopyOnly ==> label@ == "Copy only"@ && next == OutputMode::NoOutput,
        mode == OutputMode::NoOutput ==> label@ == "No output"@ && next
            == OutputMode::CopyAndPaste,
{
}

/// The mode that comes nearest to some actions: without a copy nothing is put out, and whether a
/// newline is added does not matter.
pub proof fn actions_tell_the_mode(copy: bool, paste: bool, newline: bool, enter: bool, r: OutputMode)
    requires
        call_ensures(modes::output_mode_from_flags, (copy, paste, newline, enter), r),
    ensures
        r == OutputMode::NoOutput <==> !copy,
        r == OutputMode::CopyOnly <==> copy && !paste,
        r == OutputMode::PasteAndEnter <==> copy && paste && enter,
        r == OutputMode::CopyAndPaste <==> copy && paste && !enter,
{
}

/// The overlay goes from mode to mode and from engine to engine, and changes nothing else.
pub proof fn modes_are_cycled(
    a: &mut OverlayApp,
    b: &mut OverlayApp,
    c: OverlayApp,
    mode: OutputMode,
    now: OutputMode,
    next: OutputMode,
    engine: EngineMode,
)
    requires
        call_ensures(OverlayApp::output_mode, (&c,), now),
        c == *old(a),
        call_ensures(OutputMode::next, (now,), next),
        call_ensures(OverlayApp::cycle_final_action_mode, (a,), mode),
        call_ensures(OverlayApp::cycle_engine_mode, (b,), engine),
    ensures
        ({
            let o = c.output;
            &&& now == OutputMode::NoOutput <==> !o.copy_to_clipboard
            &&& now == OutputMode::CopyOnly <==> o.copy_to_clipboard && !o.auto_paste
            &&& now == OutputMode::PasteAndEnter <==> o.copy_to_clipboard && o.auto_paste
                && o.send_enter
        }),
        mode == next,
        does(
            mode,
            (
                final(a).output.copy_to_clipboard,
                final(a).output.auto_paste,
                final(a).output.append_newline,
                final(a).output.send_enter,
            ),
        ),
        *final(a) == (OverlayApp { output: final(a).output, ..*old(a) }),
        engine != old(b).engine_mode,
        *final(b) == (OverlayApp { engine_mode: engine, ..*old(b) }),
{
}

/// The engines are named, told by their setting, and switched to and fro.
pub proof fn engines_are_told(
    mode: EngineMode,
    on: bool,
    label: &'static str,
    other: EngineMode,
    streams: bool,
    set: EngineMode,
)
    requires
        call_ensures(EngineMode::label, (mode,), label),
        call_ensures(EngineMode::toggled, (mode,), other),
        call_ensures(EngineMode::is_streaming, (mode,), streams),
        call_ensures(EngineMode::of_setting, (on,), set),
    ensures
        other != mode,
        streams <==> mode == EngineMode::Streaming,
        on <==> set == EngineMode::Streaming,
        streams ==> label@ == "Streaming"@,
        !streams ==> label@ == "Batch"@,
{
}

/// The labels of the engine in use are shown.
pub proof fn engine_in_use_is_shown(a: &OverlayApp, model: &str, source: &str, s: OverlaySettingsUpdate)
    requires
        call_ensures(OverlayApp::active_model_label, (a,), model),
        call_ensures(OverlayApp::active_source_label, (a,), source),
        call_ensures(OverlayApp::save_settings, (a,), s),
    ensures
        a.engine_mode == EngineMode::Streaming ==> model@ == a.labels.streaming_model@ && source@
            == a.labels.streaming_source@,
        a.engine_mode == EngineMode::Batch ==> model@ == a.labels.batch_model@ && source@
            == a.labels.batch_source@,
        s == a.settings,
{
}

} // verus!
