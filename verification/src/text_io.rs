//! Bringing text to the clipboard and into the focused application with the tools at hand.
use vstd::prelude::*;
use vstd::string::*;

use crate::streaming::hub;
use crate::text;

verus! {

/// The programs that are installed.
#[derive(Debug, Clone, Copy)]
pub struct Tools {
    pub ydotool: bool,
    pub wtype: bool,
    pub xdotool: bool,
    pub wl_copy: bool,
    pub xclip: bool,
    pub xsel: bool,
}

/// A program and its arguments.
#[derive(Debug)]
pub struct CommandLine {
    pub program: String,
    pub args: Vec<String>,
}

/// A command line, by its characters.
pub struct CommandView {
    pub program: Seq<char>,
    pub args: Seq<Seq<char>>,
}

impl View for CommandLine {
    type V = CommandView;

    open spec fn view(&self) -> CommandView {
        CommandView { program: self.program@, args: text::views(self.args@) }
    }
}

pub open spec fn command_views(c: Seq<CommandLine>) -> Seq<CommandView> {
    Seq::new(c.len(), |i: int| c[i]@)
}

pub open spec fn str_views(v: Seq<&str>) -> Seq<Seq<char>> {
    Seq::new(v.len(), |i: int| v[i]@)
}

fn command(program: &str, args: Vec<&str>) -> (r: CommandLine)
    ensures
        r@ == (CommandView { program: program@, args: str_views(args@) }),
{
    let mut owned: Vec<String> = Vec::new();
    let mut i: usize = 0;
    while i < args.len()
        invariant
            i <= args@.len(),
            text::views(owned@) == str_views(args@.take(i as int)),
        decreases args@.len() - i,
    {
        let ghost before = owned@;
        owned.push(args[i].to_owned());
        assert(text::views(owned@) =~= text::views(before).push(args@[i as int]@));
        assert(str_views(args@.take(i + 1)) =~= str_views(args@.take(i as int)).push(
            args@[i as int]@,
        ));
        i += 1;
    }
    assert(args@.take(i as int) =~= args@);
    CommandLine { program: program.to_owned(), args: owned }
}

/// How text is put into the focused application.
#[derive(Debug, Clone, Copy, PartialEq, Eq, Structural)]
pub enum InjectionMethod {
    Wtype,
    Ydotool,
    Clipboard,
}

/// The method for a preference: the preferred one where it is known and its tool installed; else
/// `ydotool`, the clipboard under Wayland, `wtype`, and the clipboard, whichever comes first.
pub open spec fn detected_method(
    preferred: Option<Seq<char>>,
    tools: Tools,
    wayland: bool,
) -> InjectionMethod {
    if preferred == Some("ydotool"@) && tools.ydotool {
        InjectionMethod::Ydotool
    } else if preferred == Some("wtype"@) && tools.wtype {
        InjectionMethod::Wtype
    } else if preferred == Some("clipboard"@) {
        InjectionMethod::Clipboard
    } else if tools.ydotool {
        InjectionMethod::Ydotool
    } else if wayland && tools.wl_copy {
        InjectionMethod::Clipboard
    } else if tools.wtype {
        InjectionMethod::Wtype
    } else {
        InjectionMethod::Clipboard
    }
}

impl InjectionMethod {
    /// The method for a preference. `wayland` says whether a Wayland display is there.
    pub fn detect(preferred: Option<&str>, tools: &Tools, wayland: bool) -> (r: InjectionMethod)
        ensures
            r == detected_method(hub::opt_str(preferred), *tools, wayland),
    {
        proof {
            reveal_strlit("ydotool");
            reveal_strlit("wtype");
            reveal_strlit("clipboard");
        }
        if let Some(choice) = preferred {
            if text::same(choice, "ydotool") && tools.ydotool {
                return InjectionMethod::Ydotool;
            }
            if text::same(choice, "wtype") && tools.wtype {
                return InjectionMethod::Wtype;
            }
            if text::same(choice, "clipboard") {
                return InjectionMethod::Clipboard;
            }
        }
        if tools.ydotool {
            return InjectionMethod::Ydotool;
        }
        if wayland && tools.wl_copy {
            return InjectionMethod::Clipboard;
        }
        if tools.wtype {
            return InjectionMethod::Wtype;
        }
        InjectionMethod::Clipboard
    }
}

/// `c` if it can be run, or nothing.
pub open spec fn if_installed(installed: bool, program: Seq<char>, args: Seq<Seq<char>>) -> Seq<
    CommandView,
> {
    if installed {
        seq![CommandView { program, args }]
    } else {
        Seq::empty()
    }
}

/// The commands that press Enter, in the order in which they are tried.
pub open spec fn enter_commands(tools: Tools) -> Seq<CommandView> {
    if_installed(tools.ydotool, "ydotool"@, seq!["key"@, "28:1"@, "28:0"@]) + if_installed(
        tools.wtype,
        "wtype"@,
        seq!["-k"@, "Return"@],
    ) + if_installed(tools.xdotool, "xdotool"@, seq!["key"@, "Return"@])
}

/// The commands that paste the clipboard, in the order in which they are tried: Ctrl+Shift+V
/// first, then, as fallbacks, Shift+Insert on KDE, Ctrl+Shift+V by another tool, and Ctrl+V.
pub open spec fn paste_commands(tools: Tools, kde: bool) -> Seq<CommandView> {
    if_installed(
        tools.ydotool,
        "ydotool"@,
        seq!["key"@, "29:1"@, "42:1"@, "47:1"@, "47:0"@, "42:0"@, "29:0"@],
    ) + if_installed(
        kde && tools.ydotool,
        "ydotool"@,
        seq!["key"@, "42:1"@, "110:1"@, "110:0"@, "42:0"@],
    ) + if_installed(
        tools.wtype,
        "wtype"@,
        seq![
            "-M"@,
            "ctrl"@,
            "-M"@,
            "shift"@,
            "-P"@,
            "v"@,
            "-m"@,
            "shift"@,
            "-m"@,
            "ctrl"@,
        ],
    ) + if_installed(tools.xdotool, "xdotool"@, seq!["key"@, "ctrl+v"@])
}

fn push_command(v: &mut Vec<CommandLine>, c: CommandLine)
    ensures
        command_views(final(v)@) == command_views(old(v)@) + seq![c@],
{
    v.push(c);
    assert(command_views(v@) =~= command_views(old(v)@) + seq![c@]);
}

/// The commands that press Enter, in the order in which they are tried.
pub fn enter_key_attempts(tools: &Tools) -> (r: Vec<CommandLine>)
    ensures
        command_views(r@) == enter_commands(*tools),
{
    let mut v: Vec<CommandLine> = Vec::new();
    assert(command_views(v@) =~= Seq::empty());
    if tools.ydotool {
        let args = vec!["key", "28:1", "28:0"];
        assert(str_views(args@) =~= seq!["key"@, "28:1"@, "28:0"@]);
        push_command(&mut v, command("ydotool", args));
    }
    if tools.wtype {
        let args = vec!["-k", "Return"];
        assert(str_views(args@) =~= seq!["-k"@, "Return"@]);
        push_command(&mut v, command("wtype", args));
    }
    if tools.xdotool {
        let args = vec!["key", "Return"];
        assert(str_views(args@) =~= seq!["key"@, "Return"@]);
        push_command(&mut v, command("xdotool", args));
    }
    assert(command_views(v@) =~= enter_commands(*tools));
    v
}

/// The commands that paste the clipboard, in the order in which they are tried.
pub fn paste_attempts(tools: &Tools, kde: bool) -> (r: Vec<CommandLine>)
    ensures
        command_views(r@) == paste_commands(*tools, kde),
{
    let mut v: Vec<CommandLine> = Vec::new();
    assert(command_views(v@) =~= Seq::empty());
    if tools.ydotool {
        let args = vec!["key", "29:1", "42:1", "47:1", "47:0", "42:0", "29:0"];
        assert(str_views(args@) =~= seq![
            "key"@,
            "29:1"@,
            "42:1"@,
            "47:1"@,
            "47:0"@,
            "42:0"@,
            "29:0"@,
        ]);
        push_command(&mut v, command("ydotool", args));
    }
    if kde && tools.ydotool {
        let args = vec!["key", "42:1", "110:1", "110:0", "42:0"];
        assert(str_views(args@) =~= seq!["key"@, "42:1"@, "110:1"@, "110:0"@, "42:0"@]);
        push_command(&mut v, command("ydotool", args));
    }
    if tools.wtype {
        let args = vec!["-M", "ctrl", "-M", "shift", "-P", "v", "-m", "shift", "-m", "ctrl"];
        assert(str_views(args@) =~= seq![
            "-M"@,
            "ctrl"@,
            "-M"@,
            "shift"@,
            "-P"@,
            "v"@,
            "-m"@,
            "shift"@,
            "-m"@,
            "ctrl"@,
        ]);
        push_command(&mut v, command("wtype", args));
    }
    if tools.xdotool {
        let args = vec!["key", "ctrl+v"];
        assert(str_views(args@) =~= seq!["key"@, "ctrl+v"@]);
        push_command(&mut v, command("xdotool", args));
    }
    assert(command_views(v@) =~= paste_commands(*tools, kde));
    v
}

/// Of `count` attempts, those with these results were made, and another one is to be made.
pub open spec fn goes_on(count: usize, results: Seq<bool>) -> bool {
    results.len() < count && !results.contains(true)
}

/// Which of `count` attempts is made next, after those with these results. Each is there in case
/// all before it fail, so that the first success is the last attempt.
pub fn next_attempt(count: usize, results: &Vec<bool>) -> (r: Option<usize>)
    ensures
        r == (if goes_on(count, results@) {
            Some(results@.len() as usize)
        } else {
            None
        }),
{
    if results.len() >= count || any_success(results) {
        None
    } else {
        Some(results.len())
    }
}

/// Whether any attempt succeeded.
pub fn any_success(results: &Vec<bool>) -> (r: bool)
    ensures
        r == results@.contains(true),
{
    let mut i: usize = 0;
    while i < results.len()
        invariant
            i <= results@.len(),
            forall|j: int| 0 <= j < i ==> !results@[j],
        decreases results@.len() - i,
    {
        if results[i] {
            return true;
        }
        i += 1;
    }
    false
}

/// A program that copies what it reads to the clipboard.
#[derive(Debug)]
pub struct ClipboardBackend {
    pub name: String,
    pub command: CommandLine,
    pub use_stdin: bool,
}

/// `b` is the program `name`, run with these arguments, which reads the text from its input.
pub open spec fn is_backend(b: ClipboardBackend, name: Seq<char>, args: Seq<Seq<char>>) -> bool {
    b.name@ == name && b.command@ == (CommandView { program: name, args }) && b.use_stdin
}

/// The installed programs that copy to the clipboard, in the order in which they are tried.
pub open spec fn backend_commands(tools: Tools) -> Seq<CommandView> {
    if_installed(tools.wl_copy, "wl-copy"@, seq!["--type"@, "text/plain"@]) + if_installed(
        tools.xclip,
        "xclip"@,
        seq!["-selection"@, "clipboard"@],
    ) + if_installed(tools.xsel, "xsel"@, seq!["--clipboard"@, "--input"@])
}

pub open spec fn backend_views(b: Seq<ClipboardBackend>) -> Seq<CommandView> {
    Seq::new(b.len(), |i: int| b[i].command@)
}

fn push_backend(v: &mut Vec<ClipboardBackend>, name: &str, args: Vec<&str>)
    ensures
        backend_views(final(v)@) == backend_views(old(v)@) + seq![
            CommandView { program: name@, args: str_views(args@) },
        ],
        final(v)@.len() == old(v)@.len() + 1,
        forall|i: int| 0 <= i < old(v)@.len() ==> final(v)@[i] == old(v)@[i],
        is_backend(final(v)@.last(), name@, str_views(args@)),
{
    let ghost c = CommandView { program: name@, args: str_views(args@) };
    v.push(
        ClipboardBackend { name: name.to_owned(), command: command(name, args), use_stdin: true },
    );
    assert(backend_views(v@) =~= backend_views(old(v)@) + seq![c]);
}

/// The installed programs that copy to the clipboard, in the order in which they are tried.
pub fn clipboard_backends(tools: &Tools) -> (r: Vec<ClipboardBackend>)
    ensures
        backend_views(r@) == backend_commands(*tools),
        forall|i: int|
            0 <= i < r@.len() ==> (#[trigger] r@[i]).use_stdin && r@[i].name@
                == r@[i].command.program@,
{
    let mut v: Vec<ClipboardBackend> = Vec::new();
    assert(backend_views(v@) =~= Seq::empty());
    if tools.wl_copy {
        let args = vec!["--type", "text/plain"];
        assert(str_views(args@) =~= seq!["--type"@, "text/plain"@]);
        push_backend(&mut v, "wl-copy", args);
    }
    if tools.xclip {
        let args = vec!["-selection", "clipboard"];
        assert(str_views(args@) =~= seq!["-selection"@, "clipboard"@]);
        push_backend(&mut v, "xclip", args);
    }
    if tools.xsel {
        let args = vec!["--clipboard", "--input"];
        assert(str_views(args@) =~= seq!["--clipboard"@, "--input"@]);
        push_backend(&mut v, "xsel", args);
    }
    assert(backend_views(v@) =~= backend_commands(*tools));
    v
}

/// The command that sets the primary selection, which Shift+Insert pastes.
pub fn primary_selection_command() -> (r: CommandLine)
    ensures
        r@ == (CommandView {
            program: "wl-copy"@,
            args: seq!["--type"@, "text/plain"@, "--primary"@],
        }),
{
    let args = vec!["--type", "text/plain", "--primary"];
    assert(str_views(args@) =~= seq!["--type"@, "text/plain"@, "--primary"@]);
    command("wl-copy", args)
}

/// Whether a program that was run copied the text: it started, took the text, and ended well.
pub fn backend_copied(started: bool, write_failed: bool, ended_well: bool) -> (r: bool)
    ensures
        r == (started && !write_failed && ended_well),
{
    started && !write_failed && ended_well
}

/// Why text could not be brought where it should be.
#[derive(Debug, Clone, Copy, PartialEq, Eq, Structural)]
pub enum TextIoError {
    NoFallbackTool,
    NoClipboardTool,
    EnterKey,
}

impl TextIoError {
    /// The message shown for the error.
    pub fn message(self) -> (r: String)
        ensures
            r@ == match self {
                TextIoError::NoFallbackTool =>
                    "No clipboard tool (wl-copy/xclip/xsel) available for fallback"@,
                TextIoError::NoClipboardTool =>
                    "No clipboard tool available. Please install wl-copy (Wayland), xclip, or xsel (X11)."@,
                TextIoError::EnterKey => "Unable to send Enter key with available backends"@,
            },
    {
        match self {
            TextIoError::NoFallbackTool =>
                "No clipboard tool (wl-copy/xclip/xsel) available for fallback".to_owned(),
            TextIoError::NoClipboardTool =>
                "No clipboard tool available. Please install wl-copy (Wayland), xclip, or xsel (X11).".to_owned(),
            TextIoError::EnterKey => "Unable to send Enter key with available backends".to_owned(),
        }
    }
}

/// How a series of attempts to copy with the installed programs ended.
pub fn fallback_copy_outcome(results: &Vec<bool>) -> (r: Result<(), TextIoError>)
    ensures
        r == (if results@.contains(true) {
            Ok(())
        } else {
            Err(TextIoError::NoFallbackTool)
        }),
{
    if any_success(results) {
        Ok(())
    } else {
        Err(TextIoError::NoFallbackTool)
    }
}

/// How copying a text at once, without a service, ended: without text there is nothing to do.
pub fn copy_to_clipboard_sync(text: &str, results: &Vec<bool>) -> (r: Result<(), TextIoError>)
    ensures
        r == (if text@.len() == 0 || results@.contains(true) {
            Ok(())
        } else {
            Err(TextIoError::NoClipboardTool)
        }),
{
    if text.is_empty() || any_success(results) {
        Ok(())
    } else {
        Err(TextIoError::NoClipboardTool)
    }
}

/// Brings text to the clipboard and into the focused application. `native_clipboard` says whether
/// the clipboard can be reached without a program; `pending_restore` is the text to be put back
/// after a paste.
#[derive(Debug)]
pub struct TextIoService {
    pub native_clipboard: bool,
    pub preserve_previous: bool,
    pub pending_restore: Option<String>,
    pub injection_method: InjectionMethod,
}

/// What is to be done next to set the clipboard.
#[derive(Debug)]
pub enum CopyAction {
    /// Read the clipboard without a program.
    ReadNative,
    /// Set the clipboard to the text without a program.
    SetNative(String),
    /// Set the clipboard to the text with the installed programs.
    RunBackends(String),
    /// Set the primary selection to the text.
    SetPrimary(String),
    /// The clipboard is set.
    Finished,
    /// No program could set the clipboard.
    Failed,
}

/// Which action was given last.
#[derive(Debug, Clone, Copy, PartialEq, Eq, Structural)]
pub enum CopyStage {
    Begin,
    Reading,
    SettingNative,
    RunningBackends,
    SettingPrimary,
    Ended,
}

/// Setting the clipboard, step by step. `previous` is what the clipboard held before, if that is
/// to be put back later.
#[derive(Debug)]
pub struct CopyFlow {
    pub text: String,
    pub reads_previous: bool,
    pub primary: bool,
    pub previous: Option<String>,
    pub stage: CopyStage,
}

/// What came of the last action.
#[derive(Debug)]
pub enum CopyReply {
    Done,
    Failed,
    /// The clipboard was read; it may have held no text.
    Read(Option<String>),
}

/// The stage that follows, given what came of the last action.
pub open spec fn copy_next(service: TextIoService, flow: CopyFlow, reply: CopyReply) -> CopyStage {
    let after_set = if flow.primary {
        CopyStage::SettingPrimary
    } else {
        CopyStage::Ended
    };
    match flow.stage {
        CopyStage::Begin => if !service.native_clipboard {
            CopyStage::RunningBackends
        } else if flow.reads_previous {
            CopyStage::Reading
        } else {
            CopyStage::SettingNative
        },
        CopyStage::Reading => CopyStage::SettingNative,
        CopyStage::SettingNative => if reply == CopyReply::Done {
            after_set
        } else {
            CopyStage::RunningBackends
        },
        CopyStage::RunningBackends => if reply == CopyReply::Done {
            after_set
        } else {
            CopyStage::Ended
        },
        CopyStage::SettingPrimary => CopyStage::Ended,
        CopyStage::Ended => CopyStage::Ended,
    }
}

/// The clipboard could not be set.
pub open spec fn copy_fails(flow: CopyFlow, reply: CopyReply) -> bool {
    flow.stage == CopyStage::RunningBackends && reply != CopyReply::Done
}

/// `action` belongs to the stage that follows.
pub open spec fn copy_acts(
    service: TextIoService,
    flow: CopyFlow,
    reply: CopyReply,
    action: CopyAction,
) -> bool {
    match copy_next(service, flow, reply) {
        CopyStage::Reading => action == CopyAction::ReadNative,
        CopyStage::SettingNative => action matches CopyAction::SetNative(s) && s@ == flow.text@,
        CopyStage::RunningBackends => action matches CopyAction::RunBackends(s) && s@ == flow.text@,
        CopyStage::SettingPrimary => action matches CopyAction::SetPrimary(s) && s@ == flow.text@,
        _ => action == (if copy_fails(flow, reply) {
            CopyAction::Failed
        } else {
            CopyAction::Finished
        }),
    }
}

/// What the clipboard held before, as far as it is known after the reply.
pub open spec fn previous_after(flow: CopyFlow, reply: CopyReply) -> Option<String> {
    match reply {
        CopyReply::Read(s) => if flow.stage == CopyStage::Reading {
            s
        } else {
            flow.previous
        },
        _ => flow.previous,
    }
}

/// What is to be put back, after the reply: what the clipboard held, once it is set.
pub open spec fn pending_after(
    service: TextIoService,
    flow: CopyFlow,
    reply: CopyReply,
) -> Option<String> {
    if copy_next(service, flow, reply) == CopyStage::Ended && flow.stage != CopyStage::Ended
        && !copy_fails(flow, reply) && flow.previous is Some {
        flow.previous
    } else {
        service.pending_restore
    }
}

/// The service and the copy after the reply.
pub open spec fn copy_step(service: TextIoService, flow: CopyFlow, reply: CopyReply) -> (
    TextIoService,
    CopyFlow,
) {
    (
        TextIoService {
            native_clipboard: service.native_clipboard && !(flow.stage == CopyStage::SettingNative
                && reply != CopyReply::Done),
            pending_restore: pending_after(service, flow, reply),
            ..service
        },
        CopyFlow {
            stage: copy_next(service, flow, reply),
            previous: previous_after(flow, reply),
            ..flow
        },
    )
}

/// What is to be put back, if anything, is taken out of the service and begins to be copied.
pub open spec fn restores(
    before: TextIoService,
    after: TextIoService,
    tools: Tools,
    flow: Option<CopyFlow>,
) -> bool {
    &&& after == (if before.preserve_previous {
        TextIoService { pending_restore: None, ..before }
    } else {
        before
    })
    &&& match flow {
        Some(f) => {
            &&& before.preserve_previous && before.pending_restore == Some(f.text)
            &&& !f.reads_previous && f.primary == tools.wl_copy
            &&& f.previous is None && f.stage == CopyStage::Begin
        },
        None => !before.preserve_previous || before.pending_restore is None,
    }
}

/// What is to be done next to put text into the focused application.
#[derive(Debug)]
pub enum InjectAction {
    /// Run the command that types the text.
    Run(CommandLine),
    /// Copy the text to the clipboard.
    Copy(String),
    /// Paste the clipboard.
    Paste,
    /// Nothing is left to be done.
    Finished,
    /// The text could not be typed, and could not be copied either.
    Failed,
}

/// Which action was given last.
#[derive(Debug, Clone, Copy, PartialEq, Eq, Structural)]
pub enum InjectStage {
    Begin,
    Running,
    Copying,
    Pasting,
    Ended,
}

/// Putting a text into the focused application, step by step.
#[derive(Debug)]
pub struct InjectFlow {
    pub text: String,
    pub stage: InjectStage,
}

/// The stage that follows, given whether the last action worked.
pub open spec fn inject_next(
    method: InjectionMethod,
    flow: InjectFlow,
    worked: bool,
) -> InjectStage {
    match flow.stage {
        InjectStage::Begin => if flow.text@.len() == 0 {
            InjectStage::Ended
        } else if method == InjectionMethod::Clipboard {
            InjectStage::Pasting
        } else {
            InjectStage::Running
        },
        InjectStage::Running => if worked {
            InjectStage::Ended
        } else {
            InjectStage::Copying
        },
        InjectStage::Copying => if worked {
            InjectStage::Pasting
        } else {
            InjectStage::Ended
        },
        InjectStage::Pasting => InjectStage::Ended,
        InjectStage::Ended => InjectStage::Ended,
    }
}

/// The command that types a text.
pub open spec fn type_command(method: InjectionMethod, text: Seq<char>) -> CommandView {
    match method {
        InjectionMethod::Ydotool => CommandView { program: "ydotool"@, args: seq!["type"@, text] },
        _ => CommandView { program: "wtype"@, args: seq![text] },
    }
}

/// `action` belongs to the stage that follows.
pub open spec fn inject_acts(
    method: InjectionMethod,
    flow: InjectFlow,
    worked: bool,
    action: InjectAction,
) -> bool {
    match inject_next(method, flow, worked) {
        InjectStage::Running => action matches InjectAction::Run(c) && c@ == type_command(
            method,
            flow.text@,
        ),
        InjectStage::Copying => action matches InjectAction::Copy(s) && s@ == flow.text@,
        InjectStage::Pasting => action == InjectAction::Paste,
        _ => action == (if flow.stage == InjectStage::Copying && !worked {
            InjectAction::Failed
        } else {
            InjectAction::Finished
        }),
    }
}

impl TextIoService {
    /// A service with nothing to put back.
    pub fn new(
        preferred_method: Option<&str>,
        preserve_previous: bool,
        native_clipboard: bool,
        tools: &Tools,
        wayland: bool,
    ) -> (r: TextIoService)
        ensures
            r == (TextIoService {
                native_clipboard,
                preserve_previous,
                pending_restore: None,
                injection_method: detected_method(
                    hub::opt_str(preferred_method),
                    *tools,
                    wayland,
                ),
            }),
    {
        TextIoService {
            native_clipboard,
            preserve_previous,
            pending_restore: None,
            injection_method: InjectionMethod::detect(preferred_method, tools, wayland),
        }
    }

    /// How text is put into the focused application.
    pub fn injection_method(&self) -> (r: InjectionMethod)
        ensures
            r == self.injection_method,
    {
        self.injection_method
    }

    /// Begins to copy a text; an empty one is not copied. Where the service preserves what the
    /// clipboard held, that is read first.
    pub fn copy_to_clipboard(&self, text: &str, tools: &Tools) -> (r: CopyFlow)
        ensures
            r.text@ == text@,
            r.reads_previous == self.preserve_previous,
            r.primary == tools.wl_copy,
            r.previous is None,
            r.stage == (if text@.len() == 0 {
                CopyStage::Ended
            } else {
                CopyStage::Begin
            }),
    {
        CopyFlow {
            text: text.to_owned(),
            reads_previous: self.preserve_previous,
            primary: tools.wl_copy,
            previous: None,
            stage: if text.is_empty() {
                CopyStage::Ended
            } else {
                CopyStage::Begin
            },
        }
    }

    /// Begins to put back what the clipboard held, if anything is to be put back. It is put back
    /// only once.
    pub fn restore_preserved_clipboard(&mut self, tools: &Tools) -> (r: Option<CopyFlow>)
        ensures
            restores(*old(self), *final(self), *tools, r),
    {
        if !self.preserve_previous {
            return None;
        }
        match self.pending_restore.take() {
            Some(text) => Some(
                CopyFlow {
                    text,
                    reads_previous: false,
                    primary: tools.wl_copy,
                    previous: None,
                    stage: CopyStage::Begin,
                },
            ),
            None => None,
        }
    }

    /// The next action to set the clipboard, given what came of the one before. The first call
    /// passes `Done`. A clipboard that cannot be set without a program is not tried that way again.
    pub fn advance_copy(&mut self, flow: &mut CopyFlow, reply: CopyReply) -> (r: CopyAction)
        ensures
            copy_acts(*old(self), *old(flow), reply, r),
            (*final(self), *final(flow)) == copy_step(*old(self), *old(flow), reply),
    {
        let done = match &reply {
            CopyReply::Done => true,
            _ => false,
        };
        let after_set = if flow.primary {
            CopyStage::SettingPrimary
        } else {
            CopyStage::Ended
        };
        let was = flow.stage;
        let next = match was {
            CopyStage::Begin => if !self.native_clipboard {
                CopyStage::RunningBackends
            } else if flow.reads_previous {
                CopyStage::Reading
            } else {
                CopyStage::SettingNative
            },
            CopyStage::Reading => CopyStage::SettingNative,
            CopyStage::SettingNative => if done {
                after_set
            } else {
                self.native_clipboard = false;
                CopyStage::RunningBackends
            },
            CopyStage::RunningBackends => if done {
                after_set
            } else {
                CopyStage::Ended
            },
            CopyStage::SettingPrimary => CopyStage::Ended,
            CopyStage::Ended => CopyStage::Ended,
        };
        let failed = was == CopyStage::RunningBackends && !done;
        if next == CopyStage::Ended && was != CopyStage::Ended && !failed {
            if flow.previous.is_some() {
                self.pending_restore = flow.previous.clone();
            }
        }
        if let CopyReply::Read(s) = reply {
            if was == CopyStage::Reading {
                flow.previous = s;
            }
        }
        flow.stage = next;
        match next {
            CopyStage::Reading => CopyAction::ReadNative,
            CopyStage::SettingNative => CopyAction::SetNative(flow.text.clone()),
            CopyStage::RunningBackends => CopyAction::RunBackends(flow.text.clone()),
            CopyStage::SettingPrimary => CopyAction::SetPrimary(flow.text.clone()),
            _ => if failed {
                CopyAction::Failed
            } else {
                CopyAction::Finished
            },
        }
    }

    /// Begins to put a text into the focused application.
    pub fn inject_text(&self, text: &str) -> (r: InjectFlow)
        ensures
            r.text@ == text@,
            r.stage == InjectStage::Begin,
    {
        InjectFlow { text: text.to_owned(), stage: InjectStage::Begin }
    }

    /// The next action to put the text into the focused application, given whether the one before
    /// worked. An empty text needs none. A text that cannot be typed is copied and pasted.
    pub fn advance_inject(&self, flow: &mut InjectFlow, worked: bool) -> (r: InjectAction)
        ensures
            inject_acts(self.injection_method, *old(flow), worked, r),
            *final(flow) == (InjectFlow {
                stage: inject_next(self.injection_method, *old(flow), worked),
                ..*old(flow)
            }),
    {
        let was = flow.stage;
        let next = match was {
            InjectStage::Begin => if flow.text.as_str().is_empty() {
                InjectStage::Ended
            } else if self.injection_method == InjectionMethod::Clipboard {
                InjectStage::Pasting
            } else {
                InjectStage::Running
            },
            InjectStage::Running => if worked {
                InjectStage::Ended
            } else {
                InjectStage::Copying
            },
            InjectStage::Copying => if worked {
                InjectStage::Pasting
            } else {
                InjectStage::Ended
            },
            InjectStage::Pasting => InjectStage::Ended,
            InjectStage::Ended => InjectStage::Ended,
        };
        flow.stage = next;
        match next {
            InjectStage::Running => {
                let text = flow.text.as_str();
                if self.injection_method == InjectionMethod::Ydotool {
                    let args = vec!["type", text];
                    assert(str_views(args@) =~= seq!["type"@, text@]);
                    InjectAction::Run(command("ydotool", args))
                } else {
                    let args = vec![text];
                    assert(str_views(args@) =~= seq![text@]);
                    InjectAction::Run(command("wtype", args))
                }
            },
            InjectStage::Copying => InjectAction::Copy(flow.text.clone()),
            InjectStage::Pasting => InjectAction::Paste,
            _ => if was == InjectStage::Copying && !worked {
                InjectAction::Failed
            } else {
                InjectAction::Finished
            },
        }
    }

    /// How the attempts to press Enter ended.
    pub fn send_enter_key(&self, results: &Vec<bool>) -> (r: Result<(), TextIoError>)
        ensures
            r == (if results@.contains(true) {
                Ok(())
            } else {
                Err(TextIoError::EnterKey)
            }),
    {
        if any_success(results) {
            Ok(())
        } else {
            Err(TextIoError::EnterKey)
        }
    }

    /// What follows the attempts to paste the clipboard: once one of them worked, what the
    /// clipboard held before is put back. Otherwise the text stays in the clipboard.
    pub fn paste_from_clipboard(&mut self, results: &Vec<bool>, tools: &Tools) -> (r: Option<
        CopyFlow,
    >)
        ensures
            if results@.contains(true) {
                restores(*old(self), *final(self), *tools, r)
            } else {
                r is None && *final(self) == *old(self)
            },
    {
        if any_success(results) {
            self.restore_preserved_clipboard(tools)
        } else {
            None
        }
    }
}

/// What the clipboard held is put back only once: when it is put back, nothing is left to be put
/// back.
pub proof fn restored_once(
    before: TextIoService,
    between: TextIoService,
    after: TextIoService,
    tools: Tools,
    first: Option<CopyFlow>,
    second: Option<CopyFlow>,
)
    requires
        restores(before, between, tools, first),
        restores(between, after, tools, second),
    ensures
        second is None,
        after == between,
{
}

/// A copy that fails leaves what is to be put back as it was, and gives up the clipboard that is
/// reached without a program only if that one failed.
pub proof fn failed_copy_keeps_pending(service: TextIoService, flow: CopyFlow, reply: CopyReply)
    requires
        copy_fails(flow, reply),
    ensures
        pending_after(service, flow, reply) == service.pending_restore,
        copy_next(service, flow, reply) == CopyStage::Ended,
        copy_acts(service, flow, reply, CopyAction::Failed),
{
}

/// A copy that reads the clipboard first and then sets it, without a program or, where that fails,
/// with one, leaves what it read as the text to be put back.
pub proof fn previous_text_is_kept(
    service: TextIoService,
    flow: CopyFlow,
    begin: CopyReply,
    previous: String,
    native: CopyReply,
    last: CopyReply,
)
    requires
        service.native_clipboard,
        flow.stage == CopyStage::Begin && flow.reads_previous,
        begin == CopyReply::Done,
    ensures
        ({
            let (s1, f1) = copy_step(service, flow, begin);
            let (s2, f2) = copy_step(s1, f1, CopyReply::Read(Some(previous)));
            let (s3, f3) = copy_step(s2, f2, native);
            let (s4, f4) = copy_step(s3, f3, CopyReply::Done);
            let (s5, f5) = copy_step(s4, f4, last);
            f5.stage == CopyStage::Ended && s5.pending_restore == Some(previous)
        }),
{
}

/// How far a copy has come: every action but the last brings it nearer to its end.
pub open spec fn copy_steps_left(stage: CopyStage) -> nat {
    match stage {
        CopyStage::Begin => 5,
        CopyStage::Reading => 4,
        CopyStage::SettingNative => 3,
        CopyStage::RunningBackends => 2,
        CopyStage::SettingPrimary => 1,
        CopyStage::Ended => 0,
    }
}

/// A copy ends after finitely many actions, whatever comes of them.
pub proof fn copy_moves_on(service: TextIoService, flow: CopyFlow, reply: CopyReply)
    requires
        flow.stage != CopyStage::Ended,
    ensures
        copy_steps_left(copy_next(service, flow, reply)) < copy_steps_left(flow.stage),
{
}

/// How far putting a text into the focused application has come.
pub open spec fn inject_steps_left(stage: InjectStage) -> nat {
    match stage {
        InjectStage::Begin => 4,
        InjectStage::Running => 3,
        InjectStage::Copying => 2,
        InjectStage::Pasting => 1,
        InjectStage::Ended => 0,
    }
}

/// Putting a text into the focused application ends after finitely many actions, and fails only
/// where the text can neither be typed nor copied.
pub proof fn inject_moves_on(method: InjectionMethod, flow: InjectFlow, worked: bool)
    ensures
        flow.stage != InjectStage::Ended ==> inject_steps_left(inject_next(method, flow, worked))
            < inject_steps_left(flow.stage),
        inject_acts(method, flow, worked, InjectAction::Failed) <==> flow.stage
            == InjectStage::Copying && !worked,
{
}

/// However many ways there are to do a thing, it is done at most once: nothing is tried after a
/// success.
pub proof fn nothing_follows_a_success(count: usize, results: Seq<bool>, i: int)
    requires
        0 <= i < results.len(),
        forall|n: int| 0 <= n < results.len() ==> #[trigger] goes_on(count, results.take(n)),
        results[i],
    ensures
        i == results.len() - 1,
{
    if i + 1 < results.len() {
        let made = results.take(i + 1);
        assert(made[i]);
        assert(made.contains(true));
        assert(!goes_on(count, made));
    }
}

} // verus!
