//! The modes that the overlay switches between.
use vstd::prelude::*;

verus! {

/// How the record control is operated.
#[derive(Debug, Clone, Copy, PartialEq, Eq, Structural)]
pub enum InputControlMode {
    Toggle,
    Hold,
}

/// Which engine transcribes.
#[derive(Debug, Clone, Copy, PartialEq, Eq, Structural)]
pub enum EngineMode {
    Streaming,
    Batch,
}

/// The name of an engine.
pub open spec fn engine_label(mode: EngineMode) -> Seq<char> {
    match mode {
        EngineMode::Streaming => "Streaming"@,
        EngineMode::Batch => "Batch"@,
    }
}

/// The other engine.
pub open spec fn other_engine(mode: EngineMode) -> EngineMode {
    match mode {
        EngineMode::Streaming => EngineMode::Batch,
        EngineMode::Batch => EngineMode::Streaming,
    }
}

impl EngineMode {
    /// The engine that the setting asks for.
    pub fn of_setting(streaming: bool) -> (r: EngineMode)
        ensures
            r == (if streaming {
                EngineMode::Streaming
            } else {
                EngineMode::Batch
            }),
    {
        if streaming {
            EngineMode::Streaming
        } else {
            EngineMode::Batch
        }
    }

    /// The name of the engine.
    pub fn label(self) -> (r: &'static str)
        ensures
            r@ == engine_label(self),
    {
        match self {
            EngineMode::Streaming => "Streaming",
            EngineMode::Batch => "Batch",
        }
    }

    /// The other engine.
    pub fn toggled(self) -> (r: EngineMode)
        ensures
            r == other_engine(self),
    {
        match self {
            EngineMode::Streaming => EngineMode::Batch,
            EngineMode::Batch => EngineMode::Streaming,
        }
    }

    /// Whether speech is streamed.
    pub fn is_streaming(self) -> (r: bool)
        ensures
            r == (self == EngineMode::Streaming),
    {
        match self {
            EngineMode::Streaming => true,
            EngineMode::Batch => false,
        }
    }
}

/// What is done with a final text.
#[derive(Debug, Clone, Copy, PartialEq, Eq, Structural)]
pub enum OutputMode {
    CopyAndPaste,
    CopyOnly,
    PasteAndEnter,
    NoOutput,
}

/// What is done with a final text, as it is kept between runs and sent with a request.
#[derive(Debug, Clone, Copy, PartialEq, Eq, Structural)]
pub struct OutputModeState {
    pub copy_to_clipboard: bool,
    pub auto_paste: bool,
    pub append_newline: bool,
    pub send_enter: bool,
}

/// The name of a mode.
pub open spec fn output_label(mode: OutputMode) -> Seq<char> {
    match mode {
        OutputMode::CopyAndPaste => "Copy + paste"@,
        OutputMode::CopyOnly => "Copy only"@,
        OutputMode::PasteAndEnter => "Paste + Enter"@,
        OutputMode::NoOutput => "No output"@,
    }
}

/// The mode that follows.
pub open spec fn next_output(mode: OutputMode) -> OutputMode {
    match mode {
        OutputMode::CopyAndPaste => OutputMode::PasteAndEnter,
        OutputMode::PasteAndEnter => OutputMode::CopyOnly,
        OutputMode::CopyOnly => OutputMode::NoOutput,
        OutputMode::NoOutput => OutputMode::CopyAndPaste,
    }
}

/// What a mode does, action by action.
pub open spec fn output_flags(mode: OutputMode) -> OutputModeState {
    OutputModeState {
        copy_to_clipboard: mode != OutputMode::NoOutput,
        auto_paste: mode == OutputMode::CopyAndPaste || mode == OutputMode::PasteAndEnter,
        append_newline: false,
        send_enter: mode == OutputMode::PasteAndEnter,
    }
}

/// The mode that comes nearest to the given actions. A text that is not copied is not put out.
pub open spec fn output_of_flags(flags: OutputModeState) -> OutputMode {
    if !flags.copy_to_clipboard {
        OutputMode::NoOutput
    } else if !flags.auto_paste {
        OutputMode::CopyOnly
    } else if flags.send_enter {
        OutputMode::PasteAndEnter
    } else {
        OutputMode::CopyAndPaste
    }
}

impl OutputMode {
    /// The name of the mode.
    pub fn label(self) -> (r: &'static str)
        ensures
            r@ == output_label(self),
    {
        match self {
            OutputMode::CopyAndPaste => "Copy + paste",
            OutputMode::CopyOnly => "Copy only",
            OutputMode::PasteAndEnter => "Paste + Enter",
            OutputMode::NoOutput => "No output",
        }
    }

    /// The mode that follows.
    pub fn next(self) -> (r: OutputMode)
        ensures
            r == next_output(self),
    {
        match self {
            OutputMode::CopyAndPaste => OutputMode::PasteAndEnter,
            OutputMode::PasteAndEnter => OutputMode::CopyOnly,
            OutputMode::CopyOnly => OutputMode::NoOutput,
            OutputMode::NoOutput => OutputMode::CopyAndPaste,
        }
    }

    /// Whether the text is copied, pasted, ended by a newline and followed by Enter.
    pub fn flags(self) -> (r: (bool, bool, bool, bool))
        ensures
            r == (
                output_flags(self).copy_to_clipboard,
                output_flags(self).auto_paste,
                output_flags(self).append_newline,
                output_flags(self).send_enter,
            ),
    {
        match self {
            OutputMode::CopyAndPaste => (true, true, false, false),
            OutputMode::CopyOnly => (true, false, false, false),
            OutputMode::PasteAndEnter => (true, true, false, true),
            OutputMode::NoOutput => (false, false, false, false),
        }
    }
}

/// The mode that comes nearest to the given actions.
pub fn output_mode_from_flags(
    copy_to_clipboard: bool,
    auto_paste: bool,
    append_newline: bool,
    send_enter: bool,
) -> (r: OutputMode)
    ensures
        r == output_of_flags(
            OutputModeState { copy_to_clipboard, auto_paste, append_newline, send_enter },
        ),
{
    match (copy_to_clipboard, auto_paste, append_newline, send_enter) {
        (true, true, _, true) => OutputMode::PasteAndEnter,
        (true, true, _, false) => OutputMode::CopyAndPaste,
        (true, false, _, _) => OutputMode::CopyOnly,
        _ => OutputMode::NoOutput,
    }
}

/// Switching the engine twice leaves it as it was.
pub proof fn engine_toggles_back(mode: EngineMode)
    ensures
        other_engine(mode) != mode,
        other_engine(other_engine(mode)) == mode,
{
}

/// The actions of a mode lead back to that mode.
pub proof fn flags_tell_the_mode(mode: OutputMode)
    ensures
        output_of_flags(output_flags(mode)) == mode,
{
}

/// Going from mode to mode visits all four and then comes back to the first.
pub proof fn output_modes_go_round(mode: OutputMode, other: OutputMode)
    ensures
        next_output(next_output(next_output(next_output(mode)))) == mode,
        other == mode || other == next_output(mode) || other == next_output(next_output(mode))
            || other == next_output(next_output(next_output(mode))),
{
}

} // verus!
