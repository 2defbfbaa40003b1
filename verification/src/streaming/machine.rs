//! The lifecycle of a streaming session.
use vstd::prelude::*;

use crate::audio::recording::{
    self, BehaviorOptions, JobOptions, RecordingPhase, RecordingStatus, ToggleResult,
};
use crate::config::{self, StreamingConfig};
use crate::stamp;
use crate::text;

verus! {

/// Decides what a control request does to the streaming session. `active` is the job of the
/// session that runs.
pub struct StreamingMachine {
    pub behavior: BehaviorOptions,
    pub config: StreamingConfig,
    pub active: Option<String>,
}

/// What is to be done about a control request.
#[derive(Debug)]
pub enum ToggleAction {
    /// Start recording; once that has succeeded the session is to be registered and the job
    /// started with these options. The answer of the request holds only then.
    Start { job_id: String, options: JobOptions },
    /// Store the options, if there are any, tell the session to stop, and show that the text is
    /// being processed.
    Stop { stored: Option<JobOptions> },
    /// Show that the text is being processed: there is no session to tell.
    MarkProcessing,
    /// Leave everything as it is.
    Nothing,
}

/// The machine after a toggle request, and what is done and answered. `id` is the identifier of
/// the job, should one be started.
pub open spec fn toggled(
    pre: StreamingMachine,
    post: StreamingMachine,
    status: RecordingStatus,
    options: Option<JobOptions>,
    id: Seq<char>,
    action: ToggleAction,
    result: ToggleResult,
) -> bool {
    let behavior_options = recording::default_options(pre.behavior);
    &&& post.behavior == pre.behavior
    &&& post.config == pre.config
    &&& match status.phase {
        RecordingPhase::Idle | RecordingPhase::Error => {
            &&& post.active == pre.active
            &&& action matches ToggleAction::Start { job_id, options: chosen } && job_id@ == id
                && chosen == (match options {
                Some(requested) => requested,
                None => behavior_options,
            })
            &&& result.phase == RecordingPhase::Recording
            &&& config::opt_view(result.job_id) == Some(id)
        },
        RecordingPhase::Recording => {
            &&& post.active is None
            &&& result.phase == RecordingPhase::Processing
            &&& match pre.active {
                Some(session) => {
                    &&& action == ToggleAction::Stop {
                        stored: match options {
                            Some(requested) => Some(
                                recording::merged_options(
                                    match status.current_job_options {
                                        Some(current) => current,
                                        None => behavior_options,
                                    },
                                    requested,
                                ),
                            ),
                            None => None,
                        },
                    }
                    &&& config::opt_view(result.job_id) == Some(session@)
                },
                None => {
                    &&& action == ToggleAction::MarkProcessing
                    &&& config::opt_view(result.job_id) == config::opt_view(status.current_job_id)
                },
            }
        },
        RecordingPhase::Processing => {
            &&& post.active == pre.active
            &&& untouched(status, action, result)
        },
    }
}

/// The request does nothing and is answered with the state of the current job.
pub open spec fn untouched(
    status: RecordingStatus,
    action: ToggleAction,
    result: ToggleResult,
) -> bool {
    &&& action == ToggleAction::Nothing
    &&& result.phase == status.phase
    &&& config::opt_view(result.job_id) == config::opt_view(status.current_job_id)
}

/// No job runs, so that one can be started.
pub open spec fn can_start(phase: RecordingPhase) -> bool {
    phase == RecordingPhase::Idle || phase == RecordingPhase::Error
}

impl StreamingMachine {
    /// A machine without a session.
    pub fn new(behavior: BehaviorOptions, config: StreamingConfig) -> (r: StreamingMachine)
        ensures
            r.behavior == behavior,
            r.config == config,
            r.active is None,
    {
        StreamingMachine { behavior, config, active: None }
    }

    fn current(status: &RecordingStatus) -> (r: ToggleResult)
        ensures
            untouched(*status, ToggleAction::Nothing, r),
    {
        ToggleResult { phase: status.phase, job_id: status.current_job_id.clone() }
    }

    /// Starts a job under `job_id` where none runs, and stops the one that is recording.
    pub fn toggle_with_id(
        &mut self,
        status: &RecordingStatus,
        options: Option<JobOptions>,
        job_id: String,
    ) -> (r: (ToggleAction, ToggleResult))
        ensures
            toggled(*old(self), *final(self), *status, options, job_id@, r.0, r.1),
    {
        match status.phase {
            RecordingPhase::Idle | RecordingPhase::Error => {
                let chosen = match options {
                    Some(requested) => requested,
                    None => JobOptions::for_behavior(self.behavior),
                };
                let answered = job_id.clone();
                (
                    ToggleAction::Start { job_id, options: chosen },
                    ToggleResult { phase: RecordingPhase::Recording, job_id: Some(answered) },
                )
            },
            RecordingPhase::Recording => match self.active.take() {
                Some(session) => {
                    let stored = match options {
                        Some(requested) => {
                            let current = match status.current_job_options {
                                Some(current) => current,
                                None => JobOptions::for_behavior(self.behavior),
                            };
                            Some(current.merged(requested))
                        },
                        None => None,
                    };
                    (
                        ToggleAction::Stop { stored },
                        ToggleResult { phase: RecordingPhase::Processing, job_id: Some(session) },
                    )
                },
                None => (
                    ToggleAction::MarkProcessing,
                    ToggleResult {
                        phase: RecordingPhase::Processing,
                        job_id: status.current_job_id.clone(),
                    },
                ),
            },
            RecordingPhase::Processing => (ToggleAction::Nothing, Self::current(status)),
        }
    }

    /// Starts a job under a fresh identifier where none runs, and stops the one that is recording.
    pub fn toggle(&mut self, status: &RecordingStatus, options: Option<JobOptions>) -> (r: (
        ToggleAction,
        ToggleResult,
    ))
        ensures
            exists|id: Seq<char>|
                #![trigger stamp::is_id(id)]
                stamp::is_id(id) && toggled(
                    *old(self),
                    *final(self),
                    *status,
                    options,
                    id,
                    r.0,
                    r.1,
                ),
    {
        let id = stamp::new_id();
        let ghost chosen = id@;
        let r = self.toggle_with_id(status, options, id);
        assert(stamp::is_id(chosen));
        r
    }

    /// Starts a job where none runs. Otherwise the state of the current job is answered, without
    /// side effects.
    pub fn start(&mut self, status: &RecordingStatus, options: Option<JobOptions>) -> (r: (
        ToggleAction,
        ToggleResult,
    ))
        ensures
            can_start(status.phase) ==> exists|id: Seq<char>|
                #![trigger stamp::is_id(id)]
                stamp::is_id(id) && toggled(
                    *old(self),
                    *final(self),
                    *status,
                    options,
                    id,
                    r.0,
                    r.1,
                ),
            !can_start(status.phase) ==> *final(self) == *old(self) && untouched(
                *status,
                r.0,
                r.1,
            ),
    {
        match status.phase {
            RecordingPhase::Idle | RecordingPhase::Error => self.toggle(status, options),
            _ => (ToggleAction::Nothing, Self::current(status)),
        }
    }

    /// Stops the job that is recording. Otherwise the state of the current job is answered,
    /// without side effects.
    pub fn stop(&mut self, status: &RecordingStatus, options: Option<JobOptions>) -> (r: (
        ToggleAction,
        ToggleResult,
    ))
        ensures
            status.phase == RecordingPhase::Recording ==> exists|id: Seq<char>|
                #![trigger stamp::is_id(id)]
                stamp::is_id(id) && toggled(
                    *old(self),
                    *final(self),
                    *status,
                    options,
                    id,
                    r.0,
                    r.1,
                ),
            status.phase != RecordingPhase::Recording ==> *final(self) == *old(self) && untouched(
                *status,
                r.0,
                r.1,
            ),
    {
        match status.phase {
            RecordingPhase::Recording => self.toggle(status, options),
            _ => (ToggleAction::Nothing, Self::current(status)),
        }
    }

    /// Registers the session of a job whose recording has started.
    pub fn session_begun(&mut self, job_id: &str)
        ensures
            final(self).behavior == old(self).behavior,
            final(self).config == old(self).config,
            config::opt_view(final(self).active) == Some(job_id@),
    {
        self.active = Some(job_id.to_owned());
    }

    /// Forgets the session of a job that ended, unless another session has taken its place.
    pub fn clear_active_slot(&mut self, job_id: &str)
        ensures
            final(self).behavior == old(self).behavior,
            final(self).config == old(self).config,
            final(self).active == (if config::opt_view(old(self).active) == Some(job_id@) {
                None
            } else {
                old(self).active
            }),
    {
        let ends = match &self.active {
            Some(session) => text::same(session.as_str(), job_id),
            None => false,
        };
        if ends {
            self.active = None;
        }
    }
}

/// A request that stops a session answers with the job that the session was started for, and
/// afterwards no session is registered.
pub proof fn stop_answers_the_started_job(
    idle: StreamingMachine,
    started: StreamingMachine,
    registered: StreamingMachine,
    stopped: StreamingMachine,
    before: RecordingStatus,
    during: RecordingStatus,
    options: Option<JobOptions>,
    stop_options: Option<JobOptions>,
    id: Seq<char>,
    unused: Seq<char>,
    start_action: ToggleAction,
    started_result: ToggleResult,
    stop_action: ToggleAction,
    stopped_result: ToggleResult,
)
    requires
        can_start(before.phase),
        toggled(idle, started, before, options, id, start_action, started_result),
        config::opt_view(registered.active) == config::opt_view(started_result.job_id),
        during.phase == RecordingPhase::Recording,
        toggled(
            registered,
            stopped,
            during,
            stop_options,
            unused,
            stop_action,
            stopped_result,
        ),
    ensures
        config::opt_view(started_result.job_id) == Some(id),
        stop_action is Stop,
        config::opt_view(stopped_result.job_id) == Some(id),
        stopped_result.phase == RecordingPhase::Processing,
        stopped.active is None,
{
}

/// While a text is being processed, a request changes nothing and answers with the current job.
pub proof fn processing_is_left_alone(
    pre: StreamingMachine,
    post: StreamingMachine,
    status: RecordingStatus,
    options: Option<JobOptions>,
    id: Seq<char>,
    action: ToggleAction,
    result: ToggleResult,
)
    requires
        status.phase == RecordingPhase::Processing,
        toggled(pre, post, status, options, id, action, result),
    ensures
        post == pre,
        action == ToggleAction::Nothing,
        result.phase == RecordingPhase::Processing,
        config::opt_view(result.job_id) == config::opt_view(status.current_job_id),
{
}

} // verus!
