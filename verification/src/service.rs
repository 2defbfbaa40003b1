//! The service: what it does about the commands that reach it.
use vstd::prelude::*;
use vstd::string::*;

use crate::audio::ducking::{AudioDuckingController, DuckState};
use crate::audio::recording::{
    BehaviorOptions, JobOptions, RecordingPhase, RecordingStatus, ToggleResult,
};
use crate::config::{BehaviorConfig, Config};
use crate::stamp;
use crate::streaming::machine::{self, StreamingMachine, ToggleAction};

verus! {

/// A command to the service.
#[derive(Debug, Clone, Copy)]
pub enum ApiCommand {
    ToggleRecording(Option<JobOptions>),
    StartRecording(Option<JobOptions>),
    StopRecording(Option<JobOptions>),
}

/// The command leaves the machine, in this phase, as it is.
pub open spec fn is_idle_command(command: ApiCommand, phase: RecordingPhase) -> bool {
    match command {
        ApiCommand::ToggleRecording(_) => false,
        ApiCommand::StartRecording(_) => !machine::can_start(phase),
        ApiCommand::StopRecording(_) => phase != RecordingPhase::Recording,
    }
}

/// The options that came with a command.
pub open spec fn command_options(command: ApiCommand) -> Option<JobOptions> {
    match command {
        ApiCommand::ToggleRecording(options) => options,
        ApiCommand::StartRecording(options) => options,
        ApiCommand::StopRecording(options) => options,
    }
}

/// What a command does to the streaming session, and what is answered. A command to start does
/// nothing unless a job can be started, a command to stop nothing unless one is recording.
pub fn run_command(
    machine: &mut StreamingMachine,
    status: &RecordingStatus,
    command: ApiCommand,
) -> (r: (ToggleAction, ToggleResult))
    ensures
        is_idle_command(command, status.phase) ==> *final(machine) == *old(machine)
            && machine::untouched(*status, r.0, r.1),
        !is_idle_command(command, status.phase) ==> exists|id: Seq<char>|
            #![trigger stamp::is_id(id)]
            stamp::is_id(id) && machine::toggled(
                *old(machine),
                *final(machine),
                *status,
                command_options(command),
                id,
                r.0,
                r.1,
            ),
{
    match command {
        ApiCommand::ToggleRecording(options) => machine.toggle(status, options),
        ApiCommand::StartRecording(options) => machine.start(status, options),
        ApiCommand::StopRecording(options) => machine.stop(status, options),
    }
}

/// What is to be done about the sound of other programs.
#[derive(Debug, Clone, Copy, PartialEq, Eq, Structural)]
pub enum DuckStep {
    /// Lower the volume to this percentage.
    Lower(u8),
    /// Restore what was before.
    Restore(DuckState),
    /// Leave it as it is.
    Nothing,
}

/// The result of a command shows that something is being recorded.
pub open spec fn is_recording(result: Option<ToggleResult>) -> bool {
    result matches Some(r) && r.phase == RecordingPhase::Recording
}

/// What is to be done about the sound of other programs after a command: it is lowered while
/// something is being recorded, and restored after anything else, a failure included.
pub fn handle_toggle_result(
    toggle_result: &Option<ToggleResult>,
    ducking: &mut AudioDuckingController,
) -> (r: DuckStep)
    ensures
        is_recording(*toggle_result) ==> *final(ducking) == *old(ducking) && r == (
        match old(ducking).to_duck() {
            Some(percent) => DuckStep::Lower(percent),
            None => DuckStep::Nothing,
        }),
        !is_recording(*toggle_result) ==> *final(ducking) == old(ducking).with_restored() && r == (
        match old(ducking).to_restore() {
            Some(state) => DuckStep::Restore(state),
            None => DuckStep::Nothing,
        }),
{
    let recording = match toggle_result {
        Some(result) => result.phase == RecordingPhase::Recording,
        None => false,
    };
    if recording {
        match ducking.activate() {
            Some(percent) => DuckStep::Lower(percent),
            None => DuckStep::Nothing,
        }
    } else {
        match ducking.restore() {
            Some(state) => DuckStep::Restore(state),
            None => DuckStep::Nothing,
        }
    }
}

/// The settings that hold for every job.
pub fn behavior_options(behavior: &BehaviorConfig) -> (r: BehaviorOptions)
    ensures
        r == (BehaviorOptions {
            auto_paste: behavior.auto_paste,
            delete_audio_files: behavior.delete_audio_files,
            append_newline: behavior.append_newline,
        }),
{
    BehaviorOptions {
        auto_paste: behavior.auto_paste,
        delete_audio_files: behavior.delete_audio_files,
        append_newline: behavior.append_newline,
    }
}

/// What a provider of transcriptions is told.
#[derive(Debug)]
pub struct ProviderConfig {
    pub model: Option<String>,
    pub model_path: Option<String>,
    pub language: Option<String>,
    pub command_path: Option<String>,
    pub api_endpoint: Option<String>,
    pub api_key: Option<String>,
}

/// Why the service cannot start.
#[derive(Debug, Clone, Copy, PartialEq, Eq, Structural)]
pub enum ServiceError {
    NoProvider,
}

impl ServiceError {
    /// The message shown for the error.
    pub fn message(self) -> (r: String)
        ensures
            r@
                == "No transcription provider configured. Set [whisper].provider in ~/.config/audetic/config.toml"@,
    {
        "No transcription provider configured. Set [whisper].provider in ~/.config/audetic/config.toml".to_owned()
    }
}

/// The provider that transcribes recordings, and what it is told.
pub fn build_transcriber(config: &Config) -> (r: Result<(String, ProviderConfig), ServiceError>)
    ensures
        match config.whisper.provider {
            Some(provider) => r == Ok::<(String, ProviderConfig), ServiceError>(
                (
                    provider,
                    ProviderConfig {
                        model: config.whisper.model,
                        model_path: config.whisper.model_path,
                        language: config.whisper.language,
                        command_path: config.whisper.command_path,
                        api_endpoint: config.whisper.api_endpoint,
                        api_key: config.whisper.api_key,
                    },
                ),
            ),
            None => r == Err::<(String, ProviderConfig), ServiceError>(ServiceError::NoProvider),
        },
{
    match &config.whisper.provider {
        Some(provider) => Ok(
            (
                provider.clone(),
                ProviderConfig {
                    model: config.whisper.model.clone(),
                    model_path: config.whisper.model_path.clone(),
                    language: config.whisper.language.clone(),
                    command_path: config.whisper.command_path.clone(),
                    api_endpoint: config.whisper.api_endpoint.clone(),
                    api_key: config.whisper.api_key.clone(),
                },
            ),
        ),
        None => Err(ServiceError::NoProvider),
    }
}

} // verus!
