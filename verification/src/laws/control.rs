//! Laws of starting and stopping jobs.
use vstd::prelude::*;

use crate::audio::ducking::AudioDuckingController;
use crate::audio::recording::{
    BehaviorOptions, JobOptions, RecordingPhase, RecordingStatus, ToggleResult,
};
use crate::config;
use crate::service::{self, ApiCommand, DuckStep};
use crate::stamp;
use crate::streaming::machine::{StreamingMachine, ToggleAction};

verus! {

/// `stored` is what a stop request leaves of the options: each option that the request gives a value
/// for has that value, and the others keep theirs.
pub open spec fn request_holds(stored: JobOptions, asked: JobOptions, kept: JobOptions) -> bool {
    &&& stored.copy_to_clipboard == asked.copy_to_clipboard
    &&& stored.auto_paste == asked.auto_paste
    &&& asked.append_newline is Some ==> stored.append_newline == asked.append_newline
    &&& asked.send_enter is Some ==> stored.send_enter == asked.send_enter
    &&& asked.append_newline is None ==> stored.append_newline == kept.append_newline
    &&& asked.send_enter is None ==> stored.send_enter == kept.send_enter
}

/// The options that hold where nothing was asked for: the text is copied, pasted and ended with a
/// newline as the settings say, and Enter is not pressed.
pub open spec fn are_defaults(options: JobOptions, behavior: BehaviorOptions) -> bool {
    &&& options.copy_to_clipboard
    &&& options.auto_paste == behavior.auto_paste
    &&& options.append_newline == Some(behavior.append_newline)
    &&& options.send_enter == Some(false)
}

/// What is asked for holds, whatever the current options are.
pub proof fn what_is_asked_for_holds(current: JobOptions, asked: JobOptions, r: JobOptions)
    requires
        call_ensures(JobOptions::merged, (current, asked), r),
    ensures
        request_holds(r, asked, current),
{
}

/// Without a request the settings decide.
pub proof fn settings_decide_without_a_request(behavior: BehaviorOptions, r: JobOptions)
    requires
        call_ensures(JobOptions::for_behavior, (behavior,), r),
    ensures
        are_defaults(r, behavior),
{
}

/// A job was started: the answer names it, and it has the options that were asked for, or else the
/// default ones.
pub open spec fn job_starts(
    before: StreamingMachine,
    after: StreamingMachine,
    options: Option<JobOptions>,
    action: ToggleAction,
    answer: ToggleResult,
) -> bool {
    &&& after == before
    &&& answer.phase == RecordingPhase::Recording
    &&& action matches ToggleAction::Start { job_id, options: chosen } && stamp::is_id(job_id@)
        && config::opt_view(answer.job_id) == Some(job_id@) && match options {
        Some(asked) => chosen == asked,
        None => are_defaults(chosen, before.behavior),
    }
}

/// The job that was recording stops: the answer names it, the session is no longer registered, and
/// the options that were asked for hold from now on.
pub open spec fn job_stops(
    before: StreamingMachine,
    after: StreamingMachine,
    status: RecordingStatus,
    options: Option<JobOptions>,
    action: ToggleAction,
    answer: ToggleResult,
) -> bool {
    &&& after.active is None
    &&& after.behavior == before.behavior && after.config == before.config
    &&& answer.phase == RecordingPhase::Processing
    &&& match before.active {
        Some(session) => {
            &&& config::opt_view(answer.job_id) == Some(session@)
            &&& action matches ToggleAction::Stop { stored } && match options {
                None => stored is None,
                Some(asked) => stored is Some && match status.current_job_options {
                    Some(current) => request_holds(stored->0, asked, current),
                    None => request_holds(
                        stored->0,
                        asked,
                        JobOptions {
                            copy_to_clipboard: true,
                            auto_paste: before.behavior.auto_paste,
                            append_newline: Some(before.behavior.append_newline),
                            send_enter: Some(false),
                        },
                    ),
                },
            }
        },
        None => action == ToggleAction::MarkProcessing && config::opt_view(answer.job_id)
            == config::opt_view(status.current_job_id),
    }
}

/// Nothing happens, and the answer tells the job and its phase.
pub open spec fn nothing_happens(
    before: StreamingMachine,
    after: StreamingMachine,
    status: RecordingStatus,
    action: ToggleAction,
    answer: ToggleResult,
) -> bool {
    &&& after == before
    &&& action == ToggleAction::Nothing
    &&& answer.phase == status.phase
    &&& config::opt_view(answer.job_id) == config::opt_view(status.current_job_id)
}

/// A toggle starts a job where none runs, stops the one that is recording, and leaves one whose text
/// is being processed alone.
pub proof fn toggling_starts_or_stops(
    m: &mut StreamingMachine,
    status: &RecordingStatus,
    options: Option<JobOptions>,
    r: (ToggleAction, ToggleResult),
)
    requires
        call_ensures(StreamingMachine::toggle, (m, status, options), r),
    ensures
        match status.phase {
            RecordingPhase::Idle | RecordingPhase::Error => job_starts(
                *old(m),
                *final(m),
                options,
                r.0,
                r.1,
            ),
            RecordingPhase::Recording => job_stops(
                *old(m),
                *final(m),
                *status,
                options,
                r.0,
                r.1,
            ),
            RecordingPhase::Processing => nothing_happens(
                *old(m),
                *final(m),
                *status,
                r.0,
                r.1,
            ),
        },
{
}

/// A request under a given identifier starts the job under that identifier, and else does what a
/// toggle does.
pub proof fn identifier_names_the_job(
    m: &mut StreamingMachine,
    status: &RecordingStatus,
    options: Option<JobOptions>,
    id: String,
    r: (ToggleAction, ToggleResult),
)
    requires
        call_ensures(StreamingMachine::toggle_with_id, (m, status, options, id), r),
    ensures
        status.phase == RecordingPhase::Idle || status.phase == RecordingPhase::Error ==> (
        r.0 matches ToggleAction::Start { job_id, options: chosen } && job_id@ == id@) && (
        r.1.job_id matches Some(j) && j@ == id@),
        status.phase == RecordingPhase::Recording ==> job_stops(
            *old(m),
            *final(m),
            *status,
            options,
            r.0,
            r.1,
        ),
        status.phase == RecordingPhase::Processing ==> nothing_happens(
            *old(m),
            *final(m),
            *status,
            r.0,
            r.1,
        ),
{
}

/// A request to start starts a job where none runs, and does nothing else.
pub proof fn starting_never_stops(
    m: &mut StreamingMachine,
    status: &RecordingStatus,
    options: Option<JobOptions>,
    r: (ToggleAction, ToggleResult),
)
    requires
        call_ensures(StreamingMachine::start, (m, status, options), r),
    ensures
        match status.phase {
            RecordingPhase::Idle | RecordingPhase::Error => job_starts(
                *old(m),
                *final(m),
                options,
                r.0,
                r.1,
            ),
            _ => nothing_happens(*old(m), *final(m), *status, r.0, r.1),
        },
{
}

/// A request to stop stops the job that is recording, with the options that it asks for, and does
/// nothing else.
pub proof fn stopping_never_starts(
    m: &mut StreamingMachine,
    status: &RecordingStatus,
    options: Option<JobOptions>,
    r: (ToggleAction, ToggleResult),
)
    requires
        call_ensures(StreamingMachine::stop, (m, status, options), r),
    ensures
        match status.phase {
            RecordingPhase::Recording => job_stops(
                *old(m),
                *final(m),
                *status,
                options,
                r.0,
                r.1,
            ),
            _ => nothing_happens(*old(m), *final(m), *status, r.0, r.1),
        },
{
}

/// A command of the interface does what its request says, with the options that came with it.
pub proof fn commands_are_followed(
    m: &mut StreamingMachine,
    status: &RecordingStatus,
    command: ApiCommand,
    r: (ToggleAction, ToggleResult),
)
    requires
        call_ensures(service::run_command, (m, status, command), r),
    ensures
        ({
            let starts = status.phase == RecordingPhase::Idle || status.phase
                == RecordingPhase::Error;
            let stops = status.phase == RecordingPhase::Recording;
            match command {
                ApiCommand::ToggleRecording(options) => if starts {
                    job_starts(*old(m), *final(m), options, r.0, r.1)
                } else if stops {
                    job_stops(*old(m), *final(m), *status, options, r.0, r.1)
                } else {
                    nothing_happens(*old(m), *final(m), *status, r.0, r.1)
                },
                ApiCommand::StartRecording(options) => if starts {
                    job_starts(*old(m), *final(m), options, r.0, r.1)
                } else {
                    nothing_happens(*old(m), *final(m), *status, r.0, r.1)
                },
                ApiCommand::StopRecording(options) => if stops {
                    job_stops(*old(m), *final(m), *status, options, r.0, r.1)
                } else {
                    nothing_happens(*old(m), *final(m), *status, r.0, r.1)
                },
            }
        }),
{
}

/// A session that has begun is registered under its job until that job ends; the end of another
/// job leaves it registered.
pub proof fn sessions_are_registered(
    begun: &mut StreamingMachine,
    ended: &mut StreamingMachine,
    job_id: &str,
    other: &str,
)
    requires
        call_ensures(StreamingMachine::session_begun, (begun, job_id), ()),
        call_ensures(StreamingMachine::clear_active_slot, (ended, other), ()),
        *final(begun) == *old(ended),
    ensures
        final(begun).active matches Some(j) && j@ == job_id@,
        final(begun).behavior == old(begun).behavior,
        final(begun).config == old(begun).config,
        other@ == job_id@ ==> final(ended).active is None,
        other@ != job_id@ ==> *final(ended) == *old(ended),
{
}

/// A new machine has no session.
pub proof fn new_machine_has_no_session(
    behavior: BehaviorOptions,
    config: config::StreamingConfig,
    r: StreamingMachine,
)
    requires
        call_ensures(StreamingMachine::new, (behavior, config), r),
    ensures
        r.active is None && r.behavior == behavior && r.config == config,
{
}

/// The sound of other programs is lowered while something is recorded, once, and restored after
/// anything else, once. A controller that is switched off does neither.
pub proof fn sound_follows_the_recording(
    result: &Option<ToggleResult>,
    d: &mut AudioDuckingController,
    r: DuckStep,
)
    requires
        call_ensures(service::handle_toggle_result, (result, d), r),
    ensures
        !old(d).enabled ==> r == DuckStep::Nothing && *final(d) == *old(d),
        final(d).enabled == old(d).enabled && final(d).duck_percent == old(d).duck_percent,
        ({
            let recording = result matches Some(t) && t.phase == RecordingPhase::Recording;
            old(d).enabled ==> if recording {
                &&& final(d).state == old(d).state
                &&& old(d).state is None ==> r == DuckStep::Lower(old(d).duck_percent)
                &&& (old(d).state matches Some(s) && s.active) ==> r == DuckStep::Nothing
            } else {
                &&& final(d).state is None
                &&& old(d).state is None ==> r == DuckStep::Nothing
                &&& old(d).state matches Some(s) ==> r == DuckStep::Restore(s)
            }
        }),
{
}

} // verus!
