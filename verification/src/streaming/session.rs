//! What a streaming session needs before it starts and what becomes of its text.
use vstd::prelude::*;
use vstd::string::*;

use crate::audio::recording::{BehaviorOptions, CompletedJob, JobOptions};
use crate::config::{self, StreamingConfig};
use crate::stamp;
use crate::streaming::hub;
use crate::streaming::mistral_realtime::MistralRealtimeClient;
use crate::streaming::pump::AudioPumpConfig;
use crate::text;

verus! {

/// Why a session cannot start.
#[derive(Debug)]
pub enum StreamError {
    UnsupportedProvider(String),
    MissingApiKey,
}

impl StreamError {
    /// The message shown for the error.
    pub fn message(&self) -> (r: String)
        ensures
            r@ == match self {
                StreamError::UnsupportedProvider(provider) => "Unsupported streaming provider '"@
                    + provider@ + "'. Use 'mistral_realtime'"@,
                StreamError::MissingApiKey =>
                    "MISTRAL_API_KEY missing. Set [streaming].api_key or environment variable"@,
            },
    {
        match self {
            StreamError::UnsupportedProvider(provider) => {
                let start = text::join("Unsupported streaming provider '", provider.as_str());
                text::join(start.as_str(), "'. Use 'mistral_realtime'")
            },
            StreamError::MissingApiKey =>
                "MISTRAL_API_KEY missing. Set [streaming].api_key or environment variable".to_owned(),
        }
    }
}

/// A key without the white space around it, unless nothing is left.
pub open spec fn usable_key(key: Option<Seq<char>>) -> Option<Seq<char>> {
    match key {
        Some(k) => if text::trimmed(k).len() > 0 {
            Some(text::trimmed(k))
        } else {
            None
        },
        None => None,
    }
}

/// The key that is used: that of the settings, or else that of the environment.
pub open spec fn chosen_key(configured: Option<Seq<char>>, environment: Option<Seq<char>>) -> Option<
    Seq<char>,
> {
    if usable_key(configured) is Some {
        usable_key(configured)
    } else {
        usable_key(environment)
    }
}

fn usable(key: &str) -> (r: Option<String>)
    ensures
        config::opt_view(r) == usable_key(Some(key@)),
{
    let trimmed = text::trim(key);
    if trimmed.as_str().is_empty() {
        None
    } else {
        Some(trimmed)
    }
}

/// The key for the provider: that of the settings, or else `environment`, the value of
/// `MISTRAL_API_KEY`.
pub fn resolve_api_key(config: &StreamingConfig, environment: Option<&str>) -> (r: Result<
    String,
    StreamError,
>)
    ensures
        match chosen_key(config::opt_view(config.api_key), hub::opt_str(environment)) {
            Some(key) => r matches Ok(k) && k@ == key,
            None => r == Err::<String, StreamError>(StreamError::MissingApiKey),
        },
{
    if let Some(key) = &config.api_key {
        if let Some(k) = usable(key.as_str()) {
            return Ok(k);
        }
    }
    if let Some(key) = environment {
        if let Some(k) = usable(key) {
            return Ok(k);
        }
    }
    Err(StreamError::MissingApiKey)
}

/// The chunks that may wait to be sent.
pub const MAX_CHUNKS: usize = 50;

/// What a session works with.
#[derive(Debug)]
pub struct StreamSetup {
    pub client: MistralRealtimeClient,
    pub pump: AudioPumpConfig,
}

/// `setup` is what a session with these settings and this key works with.
pub open spec fn is_setup(setup: StreamSetup, config: StreamingConfig, key: Seq<char>) -> bool {
    &&& setup.client.api_key@ == key
    &&& setup.client.model@ == config.model@
    &&& setup.client.api_base_url@ == config.api_base_url@
    &&& setup.client.sample_rate_hz == config.sample_rate_hz
    &&& setup.pump == AudioPumpConfig {
        sample_rate_hz: config.sample_rate_hz,
        chunk_ms: config.chunk_ms,
        max_chunks: 50,
        silence_timeout_ms: config.silence_timeout_ms,
    }
}

/// Prepares a session. The provider is looked at before the key.
pub fn prepare_session(config: &StreamingConfig, environment: Option<&str>) -> (r: Result<
    StreamSetup,
    StreamError,
>)
    ensures
        if text::trimmed(config.provider@) != "mistral_realtime"@ {
            r matches Err(StreamError::UnsupportedProvider(p)) && p@ == config.provider@
        } else {
            match chosen_key(config::opt_view(config.api_key), hub::opt_str(environment)) {
                Some(key) => r matches Ok(setup) && is_setup(setup, *config, key),
                None => r == Err::<StreamSetup, StreamError>(StreamError::MissingApiKey),
            }
        },
{
    let provider = text::trim(config.provider.as_str());
    if !text::same(provider.as_str(), "mistral_realtime") {
        return Err(StreamError::UnsupportedProvider(config.provider.clone()));
    }
    match resolve_api_key(config, environment) {
        Ok(api_key) => Ok(
            StreamSetup {
                client: MistralRealtimeClient {
                    api_key,
                    model: config.model.clone(),
                    api_base_url: config.api_base_url.clone(),
                    sample_rate_hz: config.sample_rate_hz,
                },
                pump: AudioPumpConfig {
                    sample_rate_hz: config.sample_rate_hz,
                    chunk_ms: config.chunk_ms,
                    max_chunks: MAX_CHUNKS,
                    silence_timeout_ms: config.silence_timeout_ms,
                },
            },
        ),
        Err(e) => Err(e),
    }
}

/// What is done when the transcription of a session has ended.
#[derive(Debug)]
pub enum SessionOutcome {
    /// Nothing was said: the phase becomes idle and the notice is shown.
    NoSpeech { notice: String },
    /// The text is committed, shown and stored, and the job completed.
    Completed { text: String },
    /// The error is published, the job fails with it, and the notice is shown.
    Failed { message: String, notice: String },
}

/// `outcome` is what is done when a transcription ended with `result`.
pub open spec fn concludes(
    result: Result<Seq<char>, Seq<char>>,
    outcome: SessionOutcome,
) -> bool {
    match result {
        Ok(t) => if text::trimmed(t).len() == 0 {
            outcome matches SessionOutcome::NoSpeech { notice } && notice@ == "No speech detected"@
        } else {
            outcome matches SessionOutcome::Completed { text } && text@ == text::trimmed(t)
        },
        Err(e) => outcome matches SessionOutcome::Failed { message, notice } && message@ == e
            && notice@ == "Streaming transcription failed: "@ + e,
    }
}

/// Decides what is done when the transcription of a session has ended, with a text or with the
/// message of an error.
pub fn conclude_session(result: Result<String, String>) -> (r: SessionOutcome)
    ensures
        concludes(
            match result {
                Ok(t) => Ok(t@),
                Err(e) => Err(e@),
            },
            r,
        ),
{
    match result {
        Ok(t) => {
            let trimmed = text::trim(t.as_str());
            if trimmed.as_str().is_empty() {
                SessionOutcome::NoSpeech { notice: "No speech detected".to_owned() }
            } else {
                SessionOutcome::Completed { text: trimmed }
            }
        },
        Err(e) => {
            let notice = text::join("Streaming transcription failed: ", e.as_str());
            SessionOutcome::Failed { message: e, notice }
        },
    }
}

/// A step at the end of a session.
#[derive(Debug)]
pub enum EndStep {
    /// Stop the recording and discard what it holds. A failure is passed over.
    DiscardRecording,
    /// The job is over, and nothing came of it.
    SetIdle,
    /// Show that something went wrong.
    ShowError(String),
    /// Commit the text. A failure is passed over.
    Commit(String),
    /// Show the text.
    ShowComplete(String),
    /// Store the text in the history. A failure is passed over.
    Store(String),
    /// The job is completed with the text.
    CompleteJob(String),
    /// Publish the error.
    PublishError(String),
    /// The job has failed.
    FailJob(String),
    /// Publish that the session has stopped.
    PublishStopped,
    /// Forget the session.
    ClearActiveSlot,
}

/// A step, by the characters of its text.
pub enum EndView {
    DiscardRecording,
    SetIdle,
    ShowError(Seq<char>),
    Commit(Seq<char>),
    ShowComplete(Seq<char>),
    Store(Seq<char>),
    CompleteJob(Seq<char>),
    PublishError(Seq<char>),
    FailJob(Seq<char>),
    PublishStopped,
    ClearActiveSlot,
}

impl View for EndStep {
    type V = EndView;

    open spec fn view(&self) -> EndView {
        match self {
            EndStep::DiscardRecording => EndView::DiscardRecording,
            EndStep::SetIdle => EndView::SetIdle,
            EndStep::ShowError(s) => EndView::ShowError(s@),
            EndStep::Commit(s) => EndView::Commit(s@),
            EndStep::ShowComplete(s) => EndView::ShowComplete(s@),
            EndStep::Store(s) => EndView::Store(s@),
            EndStep::CompleteJob(s) => EndView::CompleteJob(s@),
            EndStep::PublishError(s) => EndView::PublishError(s@),
            EndStep::FailJob(s) => EndView::FailJob(s@),
            EndStep::PublishStopped => EndView::PublishStopped,
            EndStep::ClearActiveSlot => EndView::ClearActiveSlot,
        }
    }
}

pub open spec fn end_views(steps: Seq<EndStep>) -> Seq<EndView> {
    Seq::new(steps.len(), |i: int| steps[i]@)
}

/// The steps at the end of a session, in order.
pub open spec fn steps_of(outcome: SessionOutcome) -> Seq<EndView> {
    let result = match outcome {
        SessionOutcome::NoSpeech { notice } => seq![EndView::SetIdle, EndView::ShowError(notice@)],
        SessionOutcome::Completed { text } => seq![
            EndView::Commit(text@),
            EndView::ShowComplete(text@),
            EndView::Store(text@),
            EndView::CompleteJob(text@),
        ],
        SessionOutcome::Failed { message, notice } => seq![
            EndView::PublishError(message@),
            EndView::FailJob(message@),
            EndView::ShowError(notice@),
        ],
    };
    seq![EndView::DiscardRecording] + result + seq![
        EndView::PublishStopped,
        EndView::ClearActiveSlot,
    ]
}

/// The steps at the end of a session, in order.
pub fn end_steps(outcome: SessionOutcome) -> (r: Vec<EndStep>)
    ensures
        end_views(r@) == steps_of(outcome),
{
    let mut steps: Vec<EndStep> = Vec::new();
    steps.push(EndStep::DiscardRecording);
    match outcome {
        SessionOutcome::NoSpeech { notice } => {
            steps.push(EndStep::SetIdle);
            steps.push(EndStep::ShowError(notice));
        },
        SessionOutcome::Completed { text } => {
            steps.push(EndStep::Commit(text.clone()));
            steps.push(EndStep::ShowComplete(text.clone()));
            steps.push(EndStep::Store(text.clone()));
            steps.push(EndStep::CompleteJob(text));
        },
        SessionOutcome::Failed { message, notice } => {
            steps.push(EndStep::PublishError(message.clone()));
            steps.push(EndStep::FailJob(message));
            steps.push(EndStep::ShowError(notice));
        },
    }
    steps.push(EndStep::PublishStopped);
    steps.push(EndStep::ClearActiveSlot);
    assert(end_views(steps@) =~= steps_of(outcome));
    steps
}

/// The number of a session in the history, which is 0 where it could not be stored.
pub fn history_number(stored: Option<i64>) -> (r: i64)
    ensures
        r == (match stored {
            Some(number) => number,
            None => 0,
        }),
{
    match stored {
        Some(number) => number,
        None => 0,
    }
}

/// The options that hold at the end of a job: those stored meanwhile, or else those it began with.
pub fn effective_options(stored: Option<JobOptions>, initial: JobOptions) -> (r: JobOptions)
    ensures
        r == (match stored {
            Some(options) => options,
            None => initial,
        }),
{
    match stored {
        Some(options) => options,
        None => initial,
    }
}

impl CompletedJob {
    /// A job that is completed now.
    pub fn new(job_id: &str, history_id: i64, text: &str) -> (r: CompletedJob)
        ensures
            r.job_id@ == job_id@,
            r.history_id == history_id,
            r.text@ == text@,
            stamp::is_time(r.created_at@),
    {
        CompletedJob {
            job_id: job_id.to_owned(),
            history_id,
            text: text.to_owned(),
            created_at: stamp::now_text(),
        }
    }
}

/// What is stored of a session in the history.
#[derive(Debug)]
pub struct VoiceToTextData {
    pub text: String,
    pub audio_path: String,
}

/// How many entries the history keeps.
pub const HISTORY_LIMIT: usize = 10_000;

/// The path under which a streamed session, which leaves no file, is stored.
pub fn stream_audio_path(job_id: &str) -> (r: String)
    ensures
        r@ == "stream://"@ + job_id@,
{
    text::join("stream://", job_id)
}

/// The history entry of a session.
pub fn stream_session_record(text: &str, job_id: &str) -> (r: VoiceToTextData)
    ensures
        r.text@ == text@,
        r.audio_path@ == "stream://"@ + job_id@,
{
    VoiceToTextData { text: text.to_owned(), audio_path: stream_audio_path(job_id) }
}

/// What is to be done next to commit a text.
#[derive(Debug)]
pub enum CommitAction {
    /// Copy the text to the clipboard.
    Copy(String),
    /// Type the text into the focused application.
    Inject(String),
    /// Paste the clipboard into the focused application.
    Paste,
    /// Wait a moment and press Enter.
    PressEnter,
    /// The commit has ended.
    Finished,
    /// The commit has failed: the text could not be copied.
    Failed,
}

/// Where a commit stands: which action was given last.
#[derive(Debug, Clone, Copy, PartialEq, Eq, Structural)]
pub enum CommitStage {
    Begin,
    Copying,
    Injecting,
    Pasting,
    PressingEnter,
    Ended,
}

/// How long to wait before Enter is pressed.
pub const ENTER_DELAY_MS: u64 = 180;

/// The commit of a text: it gives the actions one by one and learns whether each succeeded.
#[derive(Debug)]
pub struct Commit {
    pub text: String,
    /// The text is copied.
    pub copies: bool,
    /// The text is typed into the focused application.
    pub injects: bool,
    /// The typed text ends with a newline.
    pub newline: bool,
    /// Enter is pressed after the typed text.
    pub enter: bool,
    pub stage: CommitStage,
}

/// `c` is the commit of `text` to `target` with these options, before any action.
pub open spec fn is_commit(
    c: Commit,
    target: Seq<char>,
    text: Seq<char>,
    options: JobOptions,
    behavior: BehaviorOptions,
) -> bool {
    &&& c.text@ == text
    &&& c.copies == (target != "none"@ && options.copy_to_clipboard)
    &&& c.injects == (target == "text_io"@ && options.auto_paste)
    &&& c.newline == (match options.append_newline {
        Some(b) => b,
        None => behavior.append_newline,
    })
    &&& c.enter == (options.send_enter == Some(true))
    &&& c.stage == CommitStage::Begin
}

/// The text as it is typed.
pub open spec fn typed_text(c: Commit) -> Seq<char> {
    if c.newline {
        c.text@ + seq!['\n']
    } else {
        c.text@
    }
}

/// The stage after the current action, given whether that succeeded. A failed copy ends the
/// commit; a failed typing is made up for by pasting where the text was copied; any other failure
/// is passed over.
pub open spec fn next_stage(c: Commit, succeeded: bool) -> CommitStage {
    let after_copy = if c.injects {
        CommitStage::Injecting
    } else {
        CommitStage::Ended
    };
    let after_text = if c.enter {
        CommitStage::PressingEnter
    } else {
        CommitStage::Ended
    };
    match c.stage {
        CommitStage::Begin => if c.copies {
            CommitStage::Copying
        } else {
            after_copy
        },
        CommitStage::Copying => if succeeded {
            after_copy
        } else {
            CommitStage::Ended
        },
        CommitStage::Injecting => if !succeeded && c.copies {
            CommitStage::Pasting
        } else {
            after_text
        },
        CommitStage::Pasting => after_text,
        CommitStage::PressingEnter => CommitStage::Ended,
        CommitStage::Ended => CommitStage::Ended,
    }
}

/// `action` is the action of the stage that follows.
pub open spec fn acts(c: Commit, succeeded: bool, action: CommitAction) -> bool {
    match next_stage(c, succeeded) {
        CommitStage::Copying => action matches CommitAction::Copy(s) && s@ == c.text@,
        CommitStage::Injecting => action matches CommitAction::Inject(s) && s@ == typed_text(c),
        CommitStage::Pasting => action == CommitAction::Paste,
        CommitStage::PressingEnter => action == CommitAction::PressEnter,
        _ => if c.stage == CommitStage::Copying && !succeeded {
            action == CommitAction::Failed
        } else {
            action == CommitAction::Finished
        },
    }
}

impl Commit {
    /// The commit of `text` to `target`, one of `none`, `clipboard` and `text_io`.
    pub fn new(
        target: &str,
        text: &str,
        options: &JobOptions,
        behavior: BehaviorOptions,
    ) -> (r: Commit)
        ensures
            is_commit(r, target@, text@, *options, behavior),
    {
        proof {
            reveal_strlit("none");
            reveal_strlit("text_io");
        }
        let off = text::same(target, "none");
        let newline = match options.append_newline {
            Some(b) => b,
            None => behavior.append_newline,
        };
        let enter = match options.send_enter {
            Some(b) => b,
            None => false,
        };
        Commit {
            text: text.to_owned(),
            copies: !off && options.copy_to_clipboard,
            injects: text::same(target, "text_io") && options.auto_paste,
            newline,
            enter,
            stage: CommitStage::Begin,
        }
    }

    /// The next action, given whether the one before succeeded. The first call passes `true`.
    pub fn next(&mut self, succeeded: bool) -> (r: CommitAction)
        ensures
            acts(*old(self), succeeded, r),
            *final(self) == (Commit { stage: next_stage(*old(self), succeeded), ..*old(self) }),
    {
        let after_copy = if self.injects {
            CommitStage::Injecting
        } else {
            CommitStage::Ended
        };
        let after_text = if self.enter {
            CommitStage::PressingEnter
        } else {
            CommitStage::Ended
        };
        let failed = match self.stage {
            CommitStage::Copying => !succeeded,
            _ => false,
        };
        let stage = match self.stage {
            CommitStage::Begin => if self.copies {
                CommitStage::Copying
            } else {
                after_copy
            },
            CommitStage::Copying => if succeeded {
                after_copy
            } else {
                CommitStage::Ended
            },
            CommitStage::Injecting => if !succeeded && self.copies {
                CommitStage::Pasting
            } else {
                after_text
            },
            CommitStage::Pasting => after_text,
            CommitStage::PressingEnter => CommitStage::Ended,
            CommitStage::Ended => CommitStage::Ended,
        };
        self.stage = stage;
        match stage {
            CommitStage::Copying => CommitAction::Copy(self.text.clone()),
            CommitStage::Injecting => {
                let mut typed = self.text.clone();
                if self.newline {
                    typed.push('\n');
                    assert(self.text@.push('\n') =~= self.text@ + seq!['\n']);
                }
                CommitAction::Inject(typed)
            },
            CommitStage::Pasting => CommitAction::Paste,
            CommitStage::PressingEnter => CommitAction::PressEnter,
            _ => if failed {
                CommitAction::Failed
            } else {
                CommitAction::Finished
            },
        }
    }
}

/// How far a stage lies from the beginning.
pub open spec fn stage_rank(s: CommitStage) -> nat {
    match s {
        CommitStage::Begin => 0,
        CommitStage::Copying => 1,
        CommitStage::Injecting => 2,
        CommitStage::Pasting => 3,
        CommitStage::PressingEnter => 4,
        CommitStage::Ended => 5,
    }
}

/// Every answer moves a commit on, so that it ends, and the text is copied, typed and pasted at
/// most once.
pub proof fn commit_moves_on(c: Commit, succeeded: bool)
    requires
        c.stage != CommitStage::Ended,
    ensures
        stage_rank(next_stage(c, succeeded)) > stage_rank(c.stage),
{
}

/// A commit to `none` ends at once, without any action.
pub proof fn commit_to_none_does_nothing(
    c: Commit,
    text: Seq<char>,
    options: JobOptions,
    behavior: BehaviorOptions,
    action: CommitAction,
)
    requires
        is_commit(c, "none"@, text, options, behavior),
        acts(c, true, action),
    ensures
        action == CommitAction::Finished,
{
    reveal_strlit("none");
    reveal_strlit("text_io");
    assert("none"@.len() != "text_io"@.len());
}

/// A commit to any target but `text_io` types, pastes and presses nothing, at any stage that it
/// can reach.
pub proof fn only_text_io_types(
    c: Commit,
    target: Seq<char>,
    text: Seq<char>,
    options: JobOptions,
    behavior: BehaviorOptions,
    stage: CommitStage,
    succeeded: bool,
)
    requires
        is_commit(c, target, text, options, behavior),
        target != "text_io"@,
        stage == CommitStage::Begin || stage == CommitStage::Copying || stage == CommitStage::Ended,
    ensures
        ({
            let next = next_stage(Commit { stage, ..c }, succeeded);
            next == CommitStage::Copying || next == CommitStage::Ended
        }),
{
}

/// The key of the settings is used, whatever the environment holds, unless it is blank.
pub proof fn settings_key_comes_first(key: Seq<char>, environment: Option<Seq<char>>)
    ensures
        text::trimmed(key).len() > 0 ==> chosen_key(Some(key), environment) == Some(
            text::trimmed(key),
        ),
        text::trimmed(key).len() == 0 ==> chosen_key(Some(key), environment) == chosen_key(
            None,
            environment,
        ),
{
}

/// The job leaves its phase by this step.
pub open spec fn settles_job(step: EndView) -> bool {
    step is SetIdle || step is CompleteJob || step is FailJob
}

/// However a session ends, its recording is discarded first, and its job is settled exactly once;
/// then it is published that the session has stopped, and last the session is forgotten.
pub proof fn every_session_ends(outcome: SessionOutcome)
    ensures
        ({
            let steps = steps_of(outcome);
            let n = steps.len();
            &&& n >= 3 && steps[0] == EndView::DiscardRecording
            &&& steps[n - 2] == EndView::PublishStopped && steps[n - 1]
                == EndView::ClearActiveSlot
            &&& forall|i: int| 0 <= i < n - 2 ==> !(#[trigger] steps[i] is PublishStopped)
            &&& exists|i: int| 0 <= i < n && settles_job(#[trigger] steps[i])
            &&& forall|i: int, j: int|
                0 <= i < j < n ==> !(settles_job(#[trigger] steps[i]) && settles_job(
                    #[trigger] steps[j],
                ))
        }),
{
    let steps = steps_of(outcome);
    match outcome {
        SessionOutcome::NoSpeech { .. } => {
            assert(settles_job(steps[1]));
        },
        SessionOutcome::Completed { .. } => {
            assert(settles_job(steps[4]));
        },
        SessionOutcome::Failed { .. } => {
            assert(settles_job(steps[2]));
        },
    }
}

/// A text is committed only where a session ends with one that is not blank, and then it is that
/// text, freed from the white space around it, and it is committed once.
pub proof fn commits_what_was_said(
    result: Result<Seq<char>, Seq<char>>,
    outcome: SessionOutcome,
    i: int,
    committed: Seq<char>,
)
    requires
        concludes(result, outcome),
        0 <= i < steps_of(outcome).len(),
        steps_of(outcome)[i] == EndView::Commit(committed),
    ensures
        i == 1,
        result matches Ok(t) && committed == text::trimmed(t) && committed.len() > 0,
{
}

} // verus!
