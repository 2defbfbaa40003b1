//! Laws of bringing text to the clipboard and into the focused application.
use vstd::prelude::*;
use vstd::string::*;

use crate::text;
use crate::text_io::{
    self, ClipboardBackend, CommandLine, CopyAction, CopyFlow, CopyReply, CopyStage, InjectAction,
    InjectFlow, InjectStage, InjectionMethod, TextIoError, TextIoService, Tools,
};

verus! {

/// The copy has come to its end with the last of these actions, and not before.
pub open spec fn copy_ends_once(actions: Seq<CopyAction>) -> bool {
    &&& actions.len() > 0
    &&& actions.last() is Finished || actions.last() is Failed
    &&& forall|i: int|
        0 <= i < actions.len() - 1 ==> !(#[trigger] actions[i] is Finished) && !(
        actions[i] is Failed)
}

/// The calls follow each other: `replies[i]` is what came of the action before `actions[i]`.
proof fn lemma_copy_step(
    services: Seq<&mut TextIoService>,
    flows: Seq<&mut CopyFlow>,
    replies: Seq<CopyReply>,
    actions: Seq<CopyAction>,
    i: int,
)
    requires
        services.len() == flows.len() == replies.len() == actions.len(),
        copy_ends_once(actions),
        flows[0].stage == CopyStage::Begin,
        0 <= i < flows.len(),
        forall|i: int|
            0 <= i < flows.len() ==> #[trigger] call_ensures(
                TextIoService::advance_copy,
                (services[i], flows[i], replies[i]),
                actions[i],
            ),
        forall|i: int|
            #![trigger flows[i]]
            0 < i < flows.len() ==> *flows[i] == *final(flows[i - 1]),
        forall|i: int|
            #![trigger services[i]]
            0 < i < services.len() ==> *services[i] == *final(services[i - 1]),
    ensures
        flows[i].text == flows[0].text,
        flows[i].reads_previous == flows[0].reads_previous,
        flows[i].primary == flows[0].primary,
        text_io::copy_steps_left(flows[i].stage) <= 5 - i,
        flows[i].stage != CopyStage::Ended,
    decreases i,
{
    if i > 0 {
        lemma_copy_step(services, flows, replies, actions, i - 1);
        assert(call_ensures(
            TextIoService::advance_copy,
            (services[i - 1], flows[i - 1], replies[i - 1]),
            actions[i - 1],
        ));
        assert(*flows[i] == *final(flows[i - 1]));
        assert(!(actions[i - 1] is Finished) && !(actions[i - 1] is Failed));
    }
}

/// A text is copied without a program where that is possible, after what the clipboard held was
/// read if that is to be preserved. Where that is not possible or fails, the installed programs copy
/// it. Then it becomes the primary selection too where `wl-copy` is there. The copy fails only where
/// the programs do. What was read is to be put back later, but only after a copy that succeeded; a
/// clipboard that could not be set without a program is not tried that way again.
pub proof fn text_is_copied(
    service: &TextIoService,
    text: &str,
    tools: &Tools,
    services: Seq<&mut TextIoService>,
    flows: Seq<&mut CopyFlow>,
    replies: Seq<CopyReply>,
    actions: Seq<CopyAction>,
)
    requires
        services.len() == flows.len() == replies.len() == actions.len(),
        copy_ends_once(actions),
        text@.len() > 0,
        *service == *services[0],
        call_ensures(TextIoService::copy_to_clipboard, (service, text, tools), *flows[0]),
        forall|i: int|
            0 <= i < flows.len() ==> #[trigger] call_ensures(
                TextIoService::advance_copy,
                (services[i], flows[i], replies[i]),
                actions[i],
            ),
        forall|i: int|
            #![trigger flows[i]]
            0 < i < flows.len() ==> *flows[i] == *final(flows[i - 1]),
        forall|i: int|
            #![trigger services[i]]
            0 < i < services.len() ==> *services[i] == *final(services[i - 1]),
    ensures
        ({
            let n = actions.len();
            let native = service.native_clipboard;
            let reads = native && service.preserve_previous;
            let k = if reads {
                1int
            } else {
                0int
            };
            let native_failed = native && n > k + 1 && !(replies[k + 1] is Done);
            let b = if native {
                k + 1
            } else {
                0int
            };
            let runs = !native || native_failed;
            let failed = runs && n > b + 1 && !(replies[b + 1] is Done);
            let end = *final(services.last());
            &&& forall|i: int| 0 <= i < n && #[trigger] actions[i] is ReadNative ==> i == 0 && reads
            &&& reads ==> actions[0] is ReadNative && n > 2
            &&& native ==> n > k + 1 && (actions[k] matches CopyAction::SetNative(s) && s@ == text@)
            &&& forall|i: int| 0 <= i < n && #[trigger] actions[i] is SetNative ==> i == k && native
            &&& runs ==> n > b + 1 && (actions[b] matches CopyAction::RunBackends(s) && s@ == text@)
            &&& forall|i: int| 0 <= i < n && #[trigger] actions[i] is RunBackends ==> i == b && runs
            &&& actions.last() is Failed <==> failed
            &&& !failed && tools.wl_copy ==> n > 1 && (actions[n - 2] matches CopyAction::SetPrimary(
                s,
            ) && s@ == text@)
            &&& forall|i: int|
                0 <= i < n && #[trigger] actions[i] is SetPrimary ==> i == n - 2 && tools.wl_copy
                    && !failed
            &&& end.pending_restore == (if !failed && reads && (replies[1] matches CopyReply::Read(
                s,
            ) && s is Some) {
                replies[1]->Read_0
            } else {
                service.pending_restore
            })
            &&& end.native_clipboard == (native && !native_failed)
            &&& end.preserve_previous == service.preserve_previous
            &&& end.injection_method == service.injection_method
        }),
{
    let n = actions.len() as int;
    assert(call_ensures(
        TextIoService::advance_copy,
        (services[0], flows[0], replies[0]),
        actions[0],
    ));
    lemma_copy_step(services, flows, replies, actions, n - 1);
    assert(n <= 5);
    if n > 1 {
        lemma_copy_step(services, flows, replies, actions, 1);
        assert(call_ensures(
            TextIoService::advance_copy,
            (services[1], flows[1], replies[1]),
            actions[1],
        ));
    }
    if n > 2 {
        lemma_copy_step(services, flows, replies, actions, 2);
        assert(call_ensures(
            TextIoService::advance_copy,
            (services[2], flows[2], replies[2]),
            actions[2],
        ));
    }
    if n > 3 {
        lemma_copy_step(services, flows, replies, actions, 3);
        assert(call_ensures(
            TextIoService::advance_copy,
            (services[3], flows[3], replies[3]),
            actions[3],
        ));
    }
    if n > 4 {
        assert(call_ensures(
            TextIoService::advance_copy,
            (services[4], flows[4], replies[4]),
            actions[4],
        ));
    }
}

/// An empty text is not copied.
pub proof fn empty_text_is_not_copied(
    service: &TextIoService,
    text: &str,
    tools: &Tools,
    s: &mut TextIoService,
    flow: &mut CopyFlow,
    reply: CopyReply,
    action: CopyAction,
)
    requires
        text@.len() == 0,
        call_ensures(TextIoService::copy_to_clipboard, (service, text, tools), *old(flow)),
        call_ensures(TextIoService::advance_copy, (s, flow, reply), action),
        *service == *old(s),
    ensures
        action is Finished,
        *final(s) == *old(s),
{
}

/// What the clipboard held is put back once a paste has worked, and only once: as a text that is
/// copied without reading the clipboard again. Without a paste that worked nothing is put back.
pub proof fn clipboard_is_put_back(
    s: &mut TextIoService,
    t: &mut TextIoService,
    tools: &Tools,
    results: &Vec<bool>,
    pasted: Option<CopyFlow>,
    restored: Option<CopyFlow>,
)
    requires
        call_ensures(TextIoService::paste_from_clipboard, (s, results, tools), pasted),
        call_ensures(TextIoService::restore_preserved_clipboard, (t, tools), restored),
    ensures
        ({
            let worked = some_worked(results@);
            &&& !worked ==> pasted is None && *final(s) == *old(s)
            &&& worked ==> puts_back(*old(s), *final(s), *tools, pasted)
            &&& puts_back(*old(t), *final(t), *tools, restored)
        }),
{
    if some_worked(results@) {
        let k = choose|i: int| 0 <= i < results@.len() && #[trigger] results@[i];
        assert(results@[k] == true);
        assert(results@.contains(true));
    }
}

/// What is to be put back is put back, and then no longer is to be.
pub open spec fn puts_back(
    before: TextIoService,
    after: TextIoService,
    tools: Tools,
    r: Option<CopyFlow>,
) -> bool {
    &&& r is Some <==> before.preserve_previous && before.pending_restore is Some
    &&& r matches Some(f) ==> {
        &&& f.text@ == before.pending_restore->0@
        &&& !f.reads_previous
        &&& f.primary == tools.wl_copy
        &&& f.stage == CopyStage::Begin
        &&& f.previous is None
    }
    &&& before.preserve_previous ==> after.pending_restore is None
    &&& !before.preserve_previous ==> after == before
    &&& after == TextIoService { pending_restore: after.pending_restore, ..before }
}

/// Putting a text into the focused application has come to its end with the last of these actions.
pub open spec fn inject_ends_once(actions: Seq<InjectAction>) -> bool {
    &&& actions.len() > 0
    &&& actions.last() is Finished || actions.last() is Failed
    &&& forall|i: int|
        0 <= i < actions.len() - 1 ==> !(#[trigger] actions[i] is Finished) && !(
        actions[i] is Failed)
}

proof fn lemma_inject_step(
    service: &TextIoService,
    flows: Seq<&mut InjectFlow>,
    replies: Seq<bool>,
    actions: Seq<InjectAction>,
    i: int,
)
    requires
        flows.len() == replies.len() == actions.len(),
        inject_ends_once(actions),
        flows[0].stage == InjectStage::Begin,
        0 <= i < flows.len(),
        forall|i: int|
            0 <= i < flows.len() ==> #[trigger] call_ensures(
                TextIoService::advance_inject,
                (service, flows[i], replies[i]),
                actions[i],
            ),
        forall|i: int|
            #![trigger flows[i]]
            0 < i < flows.len() ==> *flows[i] == *final(flows[i - 1]),
    ensures
        flows[i].text == flows[0].text,
        text_io::inject_steps_left(flows[i].stage) <= 4 - i,
        i > 0 ==> flows[i].stage != InjectStage::Ended && flows[i].stage != InjectStage::Begin,
    decreases i,
{
    if i > 0 {
        lemma_inject_step(service, flows, replies, actions, i - 1);
        assert(call_ensures(
            TextIoService::advance_inject,
            (service, flows[i - 1], replies[i - 1]),
            actions[i - 1],
        ));
        assert(*flows[i] == *final(flows[i - 1]));
        assert(!(actions[i - 1] is Finished) && !(actions[i - 1] is Failed));
    }
}

/// The command types this text.
pub open spec fn types(c: CommandLine, method: InjectionMethod, text: Seq<char>) -> bool {
    match method {
        InjectionMethod::Ydotool => c.program@ == "ydotool"@ && c.args@.len() == 2 && c.args@[0]@
            == "type"@ && c.args@[1]@ == text,
        _ => c.program@ == "wtype"@ && c.args@.len() == 1 && c.args@[0]@ == text,
    }
}

/// An empty text needs nothing. With the clipboard as the method, the text, which was copied before,
/// is pasted. With a program, that types the text as it is; where it fails, the text is copied and,
/// if that worked, pasted. It fails only where the text can neither be typed nor copied.
pub proof fn text_is_put_in(
    service: &TextIoService,
    text: &str,
    flows: Seq<&mut InjectFlow>,
    replies: Seq<bool>,
    actions: Seq<InjectAction>,
)
    requires
        flows.len() == replies.len() == actions.len(),
        inject_ends_once(actions),
        call_ensures(TextIoService::inject_text, (service, text), *flows[0]),
        forall|i: int|
            0 <= i < flows.len() ==> #[trigger] call_ensures(
                TextIoService::advance_inject,
                (service, flows[i], replies[i]),
                actions[i],
            ),
        forall|i: int|
            #![trigger flows[i]]
            0 < i < flows.len() ==> *flows[i] == *final(flows[i - 1]),
    ensures
        ({
            let n = actions.len();
            let method = service.injection_method;
            if text@.len() == 0 {
                n == 1 && actions[0] is Finished
            } else if method == InjectionMethod::Clipboard {
                n == 2 && actions[0] is Paste && actions[1] is Finished
            } else {
                &&& n > 1 && (actions[0] matches InjectAction::Run(c) && types(c, method, text@))
                &&& replies[1] ==> n == 2 && actions[1] is Finished
                &&& !replies[1] ==> n > 2 && (actions[1] matches InjectAction::Copy(s) && s@
                    == text@) && if replies[2] {
                    n == 4 && actions[2] is Paste && actions[3] is Finished
                } else {
                    n == 3 && actions[2] is Failed
                }
            }
        }),
{
    let n = actions.len() as int;
    assert(call_ensures(TextIoService::advance_inject, (service, flows[0], replies[0]), actions[0]));
    lemma_inject_step(service, flows, replies, actions, n - 1);
    if n > 1 {
        lemma_inject_step(service, flows, replies, actions, 1);
        assert(call_ensures(
            TextIoService::advance_inject,
            (service, flows[1], replies[1]),
            actions[1],
        ));
    }
    if n > 2 {
        lemma_inject_step(service, flows, replies, actions, 2);
        assert(call_ensures(
            TextIoService::advance_inject,
            (service, flows[2], replies[2]),
            actions[2],
        ));
    }
    if n > 3 {
        lemma_inject_step(service, flows, replies, actions, 3);
        assert(call_ensures(
            TextIoService::advance_inject,
            (service, flows[3], replies[3]),
            actions[3],
        ));
    }
    if let InjectAction::Run(c) = actions[0] {
        assert(c@.args.len() == c.args@.len());
        assert(forall|j: int| 0 <= j < c.args@.len() ==> c@.args[j] == (#[trigger] c.args@[j])@);
    }
}

/// The command is this program with these arguments.
pub open spec fn runs(c: CommandLine, program: Seq<char>, args: Seq<Seq<char>>) -> bool {
    &&& c.program@ == program
    &&& c.args@.len() == args.len()
    &&& forall|i: int| 0 <= i < args.len() ==> (#[trigger] c.args@[i])@ == args[i]
}

proof fn lemma_runs(c: CommandLine, program: Seq<char>, args: Seq<Seq<char>>)
    requires
        c@.program == program,
        c@.args == args,
    ensures
        runs(c, program, args),
{
    assert(c@.args.len() == c.args@.len());
    assert forall|i: int| 0 <= i < args.len() implies (#[trigger] c.args@[i])@ == args[i] by {
        assert(c@.args[i] == c.args@[i]@);
    }
}

/// Enter is pressed with each tool that is there: first `ydotool`, which presses and releases the
/// key, then `wtype`, then `xdotool`.
pub proof fn enter_is_pressed_with_every_tool(tools: &Tools, r: Vec<CommandLine>)
    requires
        call_ensures(text_io::enter_key_attempts, (tools,), r),
    ensures
        ({
            let y = if tools.ydotool {
                1int
            } else {
                0int
            };
            let w = if tools.wtype {
                1int
            } else {
                0int
            };
            let x = if tools.xdotool {
                1int
            } else {
                0int
            };
            &&& r@.len() == y + w + x
            &&& tools.ydotool ==> runs(r@[0], "ydotool"@, seq!["key"@, "28:1"@, "28:0"@])
            &&& tools.wtype ==> runs(r@[y], "wtype"@, seq!["-k"@, "Return"@])
            &&& tools.xdotool ==> runs(r@[y + w], "xdotool"@, seq!["key"@, "Return"@])
        }),
{
    let v = text_io::command_views(r@);
    assert(v.len() == r@.len());
    let y = if tools.ydotool {
        1int
    } else {
        0int
    };
    let w = if tools.wtype {
        1int
    } else {
        0int
    };
    if tools.ydotool {
        assert(v[0] == r@[0]@);
        lemma_runs(r@[0], "ydotool"@, seq!["key"@, "28:1"@, "28:0"@]);
    }
    if tools.wtype {
        assert(v[y] == r@[y]@);
        lemma_runs(r@[y], "wtype"@, seq!["-k"@, "Return"@]);
    }
    if tools.xdotool {
        assert(v[y + w] == r@[y + w]@);
        lemma_runs(r@[y + w], "xdotool"@, seq!["key"@, "Return"@]);
    }
}

/// The clipboard is pasted with each tool that is there: `ydotool` presses Ctrl+Shift+V and, on KDE,
/// Shift+Insert, releasing the keys in the opposite order; then `wtype` presses Ctrl+Shift+V, and
/// `xdotool` Ctrl+V.
pub proof fn clipboard_is_pasted_with_every_tool(tools: &Tools, kde: bool, r: Vec<CommandLine>)
    requires
        call_ensures(text_io::paste_attempts, (tools, kde), r),
    ensures
        ({
            let y = if tools.ydotool {
                1int
            } else {
                0int
            };
            let k = if kde && tools.ydotool {
                1int
            } else {
                0int
            };
            let w = if tools.wtype {
                1int
            } else {
                0int
            };
            let x = if tools.xdotool {
                1int
            } else {
                0int
            };
            &&& r@.len() == y + k + w + x
            &&& tools.ydotool ==> runs(
                r@[0],
                "ydotool"@,
                seq!["key"@, "29:1"@, "42:1"@, "47:1"@, "47:0"@, "42:0"@, "29:0"@],
            )
            &&& kde && tools.ydotool ==> runs(
                r@[1],
                "ydotool"@,
                seq!["key"@, "42:1"@, "110:1"@, "110:0"@, "42:0"@],
            )
            &&& tools.wtype ==> runs(
                r@[y + k],
                "wtype"@,
                seq![
                    "-M"@,
                    "ctrl"@,
                    "-M"@,
                    "shift"@,
                    "-P"@,
                    "v"@,
                    "-m"@,
                    "shift"@,
                    "-m"@,
                    "ctrl"@,
                ],
            )
            &&& tools.xdotool ==> runs(r@[y + k + w], "xdotool"@, seq!["key"@, "ctrl+v"@])
        }),
{
    let v = text_io::command_views(r@);
    assert(v.len() == r@.len());
    let y = if tools.ydotool {
        1int
    } else {
        0int
    };
    let k = if kde && tools.ydotool {
        1int
    } else {
        0int
    };
    let w = if tools.wtype {
        1int
    } else {
        0int
    };
    if tools.ydotool {
        assert(v[0] == r@[0]@);
        lemma_runs(
            r@[0],
            "ydotool"@,
            seq!["key"@, "29:1"@, "42:1"@, "47:1"@, "47:0"@, "42:0"@, "29:0"@],
        );
    }
    if kde && tools.ydotool {
        assert(v[1] == r@[1]@);
        lemma_runs(r@[1], "ydotool"@, seq!["key"@, "42:1"@, "110:1"@, "110:0"@, "42:0"@]);
    }
    if tools.wtype {
        assert(v[y + k] == r@[y + k]@);
        lemma_runs(
            r@[y + k],
            "wtype"@,
            seq![
                "-M"@,
                "ctrl"@,
                "-M"@,
                "shift"@,
                "-P"@,
                "v"@,
                "-m"@,
                "shift"@,
                "-m"@,
                "ctrl"@,
            ],
        );
    }
    if tools.xdotool {
        assert(v[y + k + w] == r@[y + k + w]@);
        lemma_runs(r@[y + k + w], "xdotool"@, seq!["key"@, "ctrl+v"@]);
    }
}

/// The programs that copy are tried in the order `wl-copy`, `xclip`, `xsel`, each that is there, and
/// read the text from their input.
pub proof fn programs_copy_in_order(tools: &Tools, r: Vec<ClipboardBackend>, p: CommandLine)
    requires
        call_ensures(text_io::clipboard_backends, (tools,), r),
        call_ensures(text_io::primary_selection_command, (), p),
    ensures
        ({
            let l = if tools.wl_copy {
                1int
            } else {
                0int
            };
            let c = if tools.xclip {
                1int
            } else {
                0int
            };
            let s = if tools.xsel {
                1int
            } else {
                0int
            };
            &&& r@.len() == l + c + s
            &&& tools.wl_copy ==> runs(
                r@[0].command,
                "wl-copy"@,
                seq!["--type"@, "text/plain"@],
            ) && r@[0].name@ == "wl-copy"@
            &&& tools.xclip ==> runs(
                r@[l].command,
                "xclip"@,
                seq!["-selection"@, "clipboard"@],
            ) && r@[l].name@ == "xclip"@
            &&& tools.xsel ==> runs(
                r@[l + c].command,
                "xsel"@,
                seq!["--clipboard"@, "--input"@],
            ) && r@[l + c].name@ == "xsel"@
            &&& forall|i: int| 0 <= i < r@.len() ==> (#[trigger] r@[i]).use_stdin
        }),
        runs(p, "wl-copy"@, seq!["--type"@, "text/plain"@, "--primary"@]),
{
    let v = text_io::backend_views(r@);
    assert(v.len() == r@.len());
    let l = if tools.wl_copy {
        1int
    } else {
        0int
    };
    let c = if tools.xclip {
        1int
    } else {
        0int
    };
    if tools.wl_copy {
        assert(v[0] == r@[0].command@);
        lemma_runs(r@[0].command, "wl-copy"@, seq!["--type"@, "text/plain"@]);
    }
    if tools.xclip {
        assert(v[l] == r@[l].command@);
        lemma_runs(r@[l].command, "xclip"@, seq!["-selection"@, "clipboard"@]);
    }
    if tools.xsel {
        assert(v[l + c] == r@[l + c].command@);
        lemma_runs(r@[l + c].command, "xsel"@, seq!["--clipboard"@, "--input"@]);
    }
    lemma_runs(p, "wl-copy"@, seq!["--type"@, "text/plain"@, "--primary"@]);
}

/// Some attempt has succeeded.
pub open spec fn some_worked(results: Seq<bool>) -> bool {
    exists|i: int| 0 <= i < results.len() && #[trigger] results[i]
}

/// Attempts are made one after the other until one succeeds or none is left; the whole succeeds
/// where one of them did.
pub proof fn attempts_are_made_in_turn(
    service: &TextIoService,
    count: usize,
    results: &Vec<bool>,
    text: &str,
    next: Option<usize>,
    any: bool,
    fallback: Result<(), TextIoError>,
    sync: Result<(), TextIoError>,
    enter: Result<(), TextIoError>,
)
    requires
        call_ensures(text_io::next_attempt, (count, results), next),
        call_ensures(text_io::any_success, (results,), any),
        call_ensures(text_io::fallback_copy_outcome, (results,), fallback),
        call_ensures(text_io::copy_to_clipboard_sync, (text, results), sync),
        call_ensures(TextIoService::send_enter_key, (service, results), enter),
    ensures
        next is Some <==> results@.len() < count && !some_worked(results@),
        next matches Some(i) ==> i == results@.len(),
        any == some_worked(results@),
        fallback is Ok <==> any,
        fallback matches Err(e) ==> e == TextIoError::NoFallbackTool,
        sync is Ok <==> any || text@.len() == 0,
        sync matches Err(e) ==> e == TextIoError::NoClipboardTool,
        enter is Ok <==> any,
        enter matches Err(e) ==> e == TextIoError::EnterKey,
{
    if some_worked(results@) {
        let k = choose|i: int| 0 <= i < results@.len() && #[trigger] results@[i];
        assert(results@[k] == true);
        assert(results@.contains(true));
    }
}

/// A program has copied the text only where it started, took all of it and ended well.
pub proof fn program_has_copied(started: bool, write_failed: bool, ended_well: bool, r: bool)
    requires
        call_ensures(text_io::backend_copied, (started, write_failed, ended_well), r),
    ensures
        r ==> started && !write_failed && ended_well,
        !r ==> !started || write_failed || !ended_well,
{
}

/// The method that is asked for is used where its tool is there; else `ydotool` is, where it is
/// there; else the clipboard under Wayland with `wl-copy`; else `wtype`; else the clipboard.
pub proof fn method_is_chosen(
    preferred: Option<&str>,
    preserve: bool,
    native: bool,
    tools: &Tools,
    wayland: bool,
    r: InjectionMethod,
    s: TextIoService,
    m: InjectionMethod,
)
    requires
        call_ensures(InjectionMethod::detect, (preferred, tools, wayland), r),
        call_ensures(TextIoService::new, (preferred, preserve, native, tools, wayland), s),
        call_ensures(TextIoService::injection_method, (&s,), m),
    ensures
        ({
            let asks_y = preferred matches Some(p) && p@ == "ydotool"@;
            let asks_w = preferred matches Some(p) && p@ == "wtype"@;
            let asks_c = preferred matches Some(p) && p@ == "clipboard"@;
            let free = !(asks_w && tools.wtype) && !asks_c;
            &&& r == InjectionMethod::Ydotool <==> tools.ydotool && free
            &&& r == InjectionMethod::Wtype <==> tools.wtype && !asks_c && (asks_w || !tools.ydotool
                && !(wayland && tools.wl_copy))
        }),
        m == r,
        s.injection_method == r && s.preserve_previous == preserve && s.native_clipboard == native
            && s.pending_restore is None,
{
    reveal_strlit("ydotool");
    reveal_strlit("wtype");
    reveal_strlit("clipboard");
    assert("ydotool"@.len() == 7 && "wtype"@.len() == 5 && "clipboard"@.len() == 9);
}

/// The messages name what is missing.
pub proof fn typing_errors_are_told(e: TextIoError, r: String)
    requires
        call_ensures(TextIoError::message, (e,), r),
    ensures
        e == TextIoError::NoFallbackTool ==> r@
            == "No clipboard tool (wl-copy/xclip/xsel) available for fallback"@,
        e == TextIoError::NoClipboardTool ==> r@
            == "No clipboard tool available. Please install wl-copy (Wayland), xclip, or xsel (X11)."@,
        e == TextIoError::EnterKey ==> r@ == "Unable to send Enter key with available backends"@,
{
}

} // verus!
