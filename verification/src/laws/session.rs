//! Laws of what a session needs and of what becomes of its text.
use vstd::prelude::*;
use vstd::string::*;

use crate::audio::recording::{BehaviorOptions, CompletedJob, JobOptions};
use crate::config::StreamingConfig;
use crate::laws::texts;
use crate::stamp;
use crate::streaming::session::{
    self, Commit, CommitAction, CommitStage, EndStep, SessionOutcome, StreamError, StreamSetup,
    VoiceToTextData,
};
use crate::text;

verus! {

/// The actions that a commit gave, from its beginning to its end. `replies[i]` says whether the
/// action before `actions[i]` succeeded.
pub open spec fn ends_once(actions: Seq<CommitAction>) -> bool {
    &&& actions.len() > 0
    &&& actions.last() is Finished || actions.last() is Failed
    &&& forall|i: int|
        0 <= i < actions.len() - 1 ==> !(#[trigger] actions[i] is Finished) && !(
        actions[i] is Failed)
}

/// A text is copied unless the target is `none` or copying was not asked for; it is typed where the
/// target is `text_io` and that was asked for, and the copy, if any, succeeded. A text that could
/// not be typed is pasted where it was copied. Then Enter is pressed if that was asked for, once,
/// whatever came of the typing and the pasting. Nothing else is done, in no other order, and the
/// commit fails only where the copy does.
pub proof fn commit_does_what_was_asked_for(
    target: &str,
    text: &str,
    options: &JobOptions,
    behavior: BehaviorOptions,
    commits: Seq<&mut Commit>,
    replies: Seq<bool>,
    actions: Seq<CommitAction>,
)
    requires
        commits.len() == replies.len() == actions.len(),
        ends_once(actions),
        call_ensures(Commit::new, (target, text, options, behavior), *commits[0]),
        forall|i: int|
            0 <= i < commits.len() ==> #[trigger] call_ensures(
                Commit::next,
                (commits[i], replies[i]),
                actions[i],
            ),
        forall|i: int|
            #![trigger commits[i]]
            0 < i < commits.len() ==> *commits[i] == *final(commits[i - 1]),
    ensures
        ({
            let n = actions.len();
            let copies = target@ != "none"@ && options.copy_to_clipboard;
            let types = target@ == "text_io"@ && options.auto_paste;
            let enter = options.send_enter == Some(true);
            let newline = if options.append_newline is Some {
                options.append_newline == Some(true)
            } else {
                behavior.append_newline
            };
            let k = if copies {
                1int
            } else {
                0int
            };
            let copy_failed = copies && n > 1 && !replies[1];
            &&& copies ==> n > 1 && (actions[0] matches CommitAction::Copy(s) && s@ == text@)
            &&& forall|i: int| 0 <= i < n && #[trigger] actions[i] is Copy ==> i == 0 && copies
            &&& actions[n - 1] is Failed <==> copy_failed
            &&& types && !copy_failed ==> n > k + 1 && (actions[k] matches CommitAction::Inject(s)
                && s@ == (if newline {
                text@ + seq!['\n']
            } else {
                text@
            }))
            &&& forall|i: int|
                0 <= i < n && #[trigger] actions[i] is Inject ==> i == k && types && !copy_failed
            &&& types && copies && !copy_failed && !replies[k + 1] ==> n > k + 2 && actions[k
                + 1] is Paste
            &&& forall|i: int|
                0 <= i < n && #[trigger] actions[i] is Paste ==> i == k + 1 && copies
                    && actions[k] is Inject && !replies[k + 1]
            &&& types && enter && !copy_failed ==> n > k + 2 && actions[n - 2] is PressEnter
            &&& forall|i: int|
                0 <= i < n && #[trigger] actions[i] is PressEnter ==> i == n - 2 && i > k && types
                    && enter && !copy_failed
        }),
{
    let n = actions.len() as int;
    assert(call_ensures(Commit::next, (commits[0], replies[0]), actions[0]));
    lemma_commit_steps(commits, replies, actions);
    if n > 1 {
        assert(call_ensures(Commit::next, (commits[1], replies[1]), actions[1]));
    }
    if n > 2 {
        assert(call_ensures(Commit::next, (commits[2], replies[2]), actions[2]));
    }
    if n > 3 {
        assert(call_ensures(Commit::next, (commits[3], replies[3]), actions[3]));
    }
    if n > 4 {
        assert(call_ensures(Commit::next, (commits[4], replies[4]), actions[4]));
    }
    if n > 5 {
        assert(call_ensures(Commit::next, (commits[5], replies[5]), actions[5]));
    }
}

/// A commit that has ended does nothing more.
pub proof fn ended_commit_does_nothing(
    a: &mut Commit,
    b: &mut Commit,
    first: bool,
    second: bool,
    last: CommitAction,
    more: CommitAction,
)
    requires
        call_ensures(Commit::next, (a, first), last),
        call_ensures(Commit::next, (b, second), more),
        *old(b) == *final(a),
        last is Finished || last is Failed,
    ensures
        more is Finished,
        *final(b) == *old(b),
{
}

proof fn lemma_commit_steps(
    commits: Seq<&mut Commit>,
    replies: Seq<bool>,
    actions: Seq<CommitAction>,
)
    requires
        commits.len() == replies.len() == actions.len(),
        ends_once(actions),
        commits[0].stage == CommitStage::Begin,
        forall|i: int|
            0 <= i < commits.len() ==> #[trigger] call_ensures(
                Commit::next,
                (commits[i], replies[i]),
                actions[i],
            ),
        forall|i: int|
            #![trigger commits[i]]
            0 < i < commits.len() ==> *commits[i] == *final(commits[i - 1]),
    ensures
        actions.len() <= 5,
        forall|i: int| #![trigger commits[i]] 0 < i < commits.len() ==> *commits[i] == (Commit {
            stage: commits[i].stage,
            ..*commits[0]
        }),
{
    let n = actions.len() as int;
    assert(call_ensures(Commit::next, (commits[0], replies[0]), actions[0]));
    assert forall|i: int| #![trigger commits[i]] 0 < i < commits.len() implies *commits[i] == (
    Commit { stage: commits[i].stage, ..*commits[0] }) && session::stage_rank(commits[i].stage) >= i
        && commits[i].stage != CommitStage::Ended by {
        lemma_commit_step(commits, replies, actions, i);
    }
    if n > 5 {
        assert(session::stage_rank(commits[5].stage) >= 5);
    }
}

proof fn lemma_commit_step(
    commits: Seq<&mut Commit>,
    replies: Seq<bool>,
    actions: Seq<CommitAction>,
    i: int,
)
    requires
        commits.len() == replies.len() == actions.len(),
        ends_once(actions),
        commits[0].stage == CommitStage::Begin,
        0 <= i < commits.len(),
        forall|i: int|
            0 <= i < commits.len() ==> #[trigger] call_ensures(
                Commit::next,
                (commits[i], replies[i]),
                actions[i],
            ),
        forall|i: int|
            #![trigger commits[i]]
            0 < i < commits.len() ==> *commits[i] == *final(commits[i - 1]),
    ensures
        *commits[i] == (Commit { stage: commits[i].stage, ..*commits[0] }),
        session::stage_rank(commits[i].stage) >= i,
        commits[i].stage != CommitStage::Ended,
    decreases i,
{
    if i > 0 {
        lemma_commit_step(commits, replies, actions, i - 1);
        assert(call_ensures(Commit::next, (commits[i - 1], replies[i - 1]), actions[i - 1]));
        assert(*commits[i] == *final(commits[i - 1]));
        assert(!(actions[i - 1] is Finished) && !(actions[i - 1] is Failed));
    }
}

/// The key of the settings is used where it holds more than white space, else that of the
/// environment where that does; the white space around it is no part of it. Without either there is
/// no key.
pub proof fn key_is_chosen(
    config: &StreamingConfig,
    environment: Option<&str>,
    r: Result<String, StreamError>,
)
    requires
        call_ensures(session::resolve_api_key, (config, environment), r),
    ensures
        ({
            let own = config.api_key matches Some(k) && !texts::all_white(k@);
            let given = environment matches Some(k) && !texts::all_white(k@);
            &&& own ==> (r matches Ok(k) && texts::is_core(config.api_key->0@, k@))
            &&& !own && given ==> (r matches Ok(k) && texts::is_core(environment->0@, k@))
            &&& !own && !given ==> r == Err::<String, StreamError>(StreamError::MissingApiKey)
        }),
{
    if let Some(k) = config.api_key {
        texts::lemma_trimmed(k@);
    }
    if let Some(k) = environment {
        texts::lemma_trimmed(k@);
    }
}

/// A session needs the one known provider, white space around its name aside, and a key. It then
/// works with the settings as they are, and no more than fifty chunks wait.
pub proof fn session_is_prepared(
    config: &StreamingConfig,
    environment: Option<&str>,
    key: Result<String, StreamError>,
    r: Result<StreamSetup, StreamError>,
)
    requires
        call_ensures(session::prepare_session, (config, environment), r),
        call_ensures(session::resolve_api_key, (config, environment), key),
    ensures
        ({
            let known = texts::is_core(config.provider@, "mistral_realtime"@);
            &&& !known ==> (r matches Err(StreamError::UnsupportedProvider(p)) && p@
                == config.provider@)
            &&& known && key is Err ==> r == Err::<StreamSetup, StreamError>(
                StreamError::MissingApiKey,
            )
            &&& known && key is Ok ==> r is Ok
            &&& r matches Ok(s) ==> {
                &&& key is Ok && s.client.api_key@ == key->Ok_0@
                &&& s.client.model@ == config.model@
                &&& s.client.api_base_url@ == config.api_base_url@
                &&& s.client.sample_rate_hz == config.sample_rate_hz
                &&& s.pump.sample_rate_hz == config.sample_rate_hz
                &&& s.pump.chunk_ms == config.chunk_ms
                &&& s.pump.silence_timeout_ms == config.silence_timeout_ms
                &&& s.pump.max_chunks == 50
            }
        }),
{
    texts::lemma_trimmed(config.provider@);
    if texts::is_core(config.provider@, "mistral_realtime"@) {
        texts::core_is_unique(
            config.provider@,
            "mistral_realtime"@,
            text::trimmed(config.provider@),
        );
    }
}

/// The text of a session counts without the white space around it. Where nothing is left, that is
/// shown; where the transcription failed, the error is told.
pub proof fn session_is_concluded(result: Result<String, String>, r: SessionOutcome)
    requires
        call_ensures(session::conclude_session, (result,), r),
    ensures
        match result {
            Ok(t) => if texts::all_white(t@) {
                r matches SessionOutcome::NoSpeech { notice } && notice@ == "No speech detected"@
            } else {
                r matches SessionOutcome::Completed { text } && texts::is_core(t@, text@)
                    && text@.len() > 0
            },
            Err(e) => r matches SessionOutcome::Failed { message, notice } && message@ == e@
                && notice@ == "Streaming transcription failed: "@ + e@,
        },
{
    if let Ok(t) = result {
        texts::lemma_trimmed(t@);
    }
}

/// A session that ends discards its recording first, publishes that it has stopped and is forgotten
/// last. In between, its text is committed, shown, stored and completes the job, in this order; or
/// the job is idle again and that nothing was said is shown; or the error is published, fails the
/// job and is shown.
pub proof fn session_ends_in_order(outcome: SessionOutcome, r: Vec<EndStep>)
    requires
        call_ensures(session::end_steps, (outcome,), r),
    ensures
        r@.len() >= 3,
        r@[0] is DiscardRecording,
        r@[r@.len() - 2] is PublishStopped,
        r@[r@.len() - 1] is ClearActiveSlot,
        match outcome {
            SessionOutcome::NoSpeech { notice } => r@.len() == 5 && r@[1] is SetIdle && (
            r@[2] matches EndStep::ShowError(s) && s@ == notice@),
            SessionOutcome::Completed { text } => r@.len() == 7 && (r@[1] matches EndStep::Commit(s)
                && s@ == text@) && (r@[2] matches EndStep::ShowComplete(s) && s@ == text@) && (
            r@[3] matches EndStep::Store(s) && s@ == text@) && (
            r@[4] matches EndStep::CompleteJob(s) && s@ == text@),
            SessionOutcome::Failed { message, notice } => r@.len() == 6 && (
            r@[1] matches EndStep::PublishError(s) && s@ == message@) && (
            r@[2] matches EndStep::FailJob(s) && s@ == message@) && (
            r@[3] matches EndStep::ShowError(s) && s@ == notice@),
        },
{
    let v = session::end_views(r@);
    assert(v.len() == r@.len());
    assert forall|i: int| 0 <= i < v.len() implies v[i] == (#[trigger] r@[i])@ by {}
}

/// The options that were stored meanwhile hold at the end of a job, or else those it began with; a
/// session that could not be stored has the number 0.
pub proof fn job_ends_with_its_options(
    stored: Option<JobOptions>,
    initial: JobOptions,
    r: JobOptions,
    number: Option<i64>,
    n: i64,
)
    requires
        call_ensures(session::effective_options, (stored, initial), r),
        call_ensures(session::history_number, (number,), n),
    ensures
        stored is Some ==> stored == Some(r),
        stored is None ==> r == initial,
        number is Some ==> number == Some(n),
        number is None ==> n == 0,
{
}

/// A completed job and its entry in the history hold the text and name the job.
pub proof fn completed_job_is_recorded(
    job_id: &str,
    number: i64,
    text: &str,
    job: CompletedJob,
    record: VoiceToTextData,
)
    requires
        call_ensures(CompletedJob::new, (job_id, number, text), job),
        call_ensures(session::stream_session_record, (text, job_id), record),
    ensures
        job.job_id@ == job_id@ && job.history_id == number && job.text@ == text@,
        stamp::is_time(job.created_at@),
        record.text@ == text@,
        record.audio_path@ == "stream://"@ + job_id@,
{
}

/// The messages name what is wrong and how it is mended.
pub proof fn session_errors_are_told(e: StreamError, r: String)
    requires
        call_ensures(StreamError::message, (&e,), r),
    ensures
        e matches StreamError::UnsupportedProvider(p) ==> r@ == "Unsupported streaming provider '"@
            + p@ + "'. Use 'mistral_realtime'"@,
        e is MissingApiKey ==> r@
            == "MISTRAL_API_KEY missing. Set [streaming].api_key or environment variable"@,
{
}

/// Enter waits for 180 milliseconds, no more than fifty chunks wait, ten thousand sessions are kept,
/// and the path of a session names its job.
pub proof fn limits_of_a_session(job_id: &str, path: String)
    requires
        call_ensures(session::stream_audio_path, (job_id,), path),
    ensures
        path@ == "stream://"@ + job_id@,
        session::ENTER_DELAY_MS == 180,
        session::MAX_CHUNKS == 50,
        session::HISTORY_LIMIT == 10_000,
{
}

} // verus!
