//! The phases of a recording and the options of a job.
use vstd::prelude::*;

verus! {

/// Where the service stands with the current job.
#[derive(Debug, Clone, Copy, PartialEq, Eq, Structural)]
pub enum RecordingPhase {
    Idle,
    Recording,
    Processing,
    Error,
}

/// What is done with the text of a job. Without a value for the newline or the Enter key, the
/// settings of the service decide.
#[derive(Debug, Clone, Copy)]
pub struct JobOptions {
    pub copy_to_clipboard: bool,
    pub auto_paste: bool,
    pub append_newline: Option<bool>,
    pub send_enter: Option<bool>,
}

/// The settings that hold for every job.
#[derive(Debug, Clone, Copy)]
pub struct BehaviorOptions {
    pub auto_paste: bool,
    pub delete_audio_files: bool,
    pub append_newline: bool,
}

/// What a control request answers.
#[derive(Debug)]
pub struct ToggleResult {
    pub phase: RecordingPhase,
    pub job_id: Option<String>,
}

/// A job that ended with a text.
#[derive(Debug)]
pub struct CompletedJob {
    pub job_id: String,
    pub history_id: i64,
    pub text: String,
    pub created_at: String,
}

/// What the service knows of the current job.
#[derive(Debug)]
pub struct RecordingStatus {
    pub phase: RecordingPhase,
    pub current_job_id: Option<String>,
    pub current_job_options: Option<JobOptions>,
    pub last_error: Option<String>,
}

/// The options of a job for which none were asked.
pub open spec fn default_options(behavior: BehaviorOptions) -> JobOptions {
    JobOptions {
        copy_to_clipboard: true,
        auto_paste: behavior.auto_paste,
        append_newline: Some(behavior.append_newline),
        send_enter: Some(false),
    }
}

/// `requested` laid over `current`: what was not asked for stays.
pub open spec fn merged_options(current: JobOptions, requested: JobOptions) -> JobOptions {
    JobOptions {
        copy_to_clipboard: requested.copy_to_clipboard,
        auto_paste: requested.auto_paste,
        append_newline: if requested.append_newline is Some {
            requested.append_newline
        } else {
            current.append_newline
        },
        send_enter: if requested.send_enter is Some {
            requested.send_enter
        } else {
            current.send_enter
        },
    }
}

impl JobOptions {
    /// The options of a job for which none were asked.
    pub fn for_behavior(behavior: BehaviorOptions) -> (r: JobOptions)
        ensures
            r == default_options(behavior),
    {
        JobOptions {
            copy_to_clipboard: true,
            auto_paste: behavior.auto_paste,
            append_newline: Some(behavior.append_newline),
            send_enter: Some(false),
        }
    }

    /// Lays the requested options over these.
    pub fn merged(self, requested: JobOptions) -> (r: JobOptions)
        ensures
            r == merged_options(self, requested),
    {
        let mut merged = self;
        merged.copy_to_clipboard = requested.copy_to_clipboard;
        merged.auto_paste = requested.auto_paste;
        if requested.append_newline.is_some() {
            merged.append_newline = requested.append_newline;
        }
        if requested.send_enter.is_some() {
            merged.send_enter = requested.send_enter;
        }
        merged
    }
}

/// Merging the same request twice changes nothing more.
pub proof fn merging_is_idempotent(current: JobOptions, requested: JobOptions)
    ensures
        merged_options(merged_options(current, requested), requested) == merged_options(
            current,
            requested,
        ),
{
}

} // verus!
