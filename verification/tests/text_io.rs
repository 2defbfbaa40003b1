use audetic::text_io::{
    backend_copied, clipboard_backends, copy_to_clipboard_sync, enter_key_attempts,
    fallback_copy_outcome, next_attempt, paste_attempts, primary_selection_command, CommandLine,
    CopyAction, CopyFlow, CopyReply, InjectAction, InjectionMethod, TextIoError, TextIoService,
    Tools,
};

fn tools(names: &[&str]) -> Tools {
    Tools {
        ydotool: names.contains(&"ydotool"),
        wtype: names.contains(&"wtype"),
        xdotool: names.contains(&"xdotool"),
        wl_copy: names.contains(&"wl-copy"),
        xclip: names.contains(&"xclip"),
        xsel: names.contains(&"xsel"),
    }
}

fn shown(c: &CommandLine) -> String {
    format!("{} {}", c.program, c.args.join(" "))
}

fn method(preferred: Option<&str>, names: &[&str], wayland: bool) -> InjectionMethod {
    InjectionMethod::detect(preferred, &tools(names), wayland)
}

#[test]
fn injection_method_follows_preference_and_tools() {
    let all = ["ydotool", "wtype", "wl-copy"];
    assert_eq!(method(Some("wtype"), &all, true), InjectionMethod::Wtype);
    assert_eq!(method(Some("ydotool"), &all, true), InjectionMethod::Ydotool);
    assert_eq!(method(Some("clipboard"), &all, true), InjectionMethod::Clipboard);
    assert_eq!(method(Some("other"), &all, true), InjectionMethod::Ydotool);
    assert_eq!(method(None, &all, true), InjectionMethod::Ydotool);
    let some = ["wtype", "wl-copy"];
    assert_eq!(method(Some("ydotool"), &some, true), InjectionMethod::Clipboard);
    assert_eq!(method(None, &some, false), InjectionMethod::Wtype);
    assert_eq!(method(Some("wtype"), &[], false), InjectionMethod::Clipboard);
}

#[test]
fn enter_is_pressed_by_the_installed_tools() {
    let commands = enter_key_attempts(&tools(&["ydotool", "wtype", "xdotool"]));
    let lines: Vec<String> = commands.iter().map(shown).collect();
    assert_eq!(
        lines,
        vec!["ydotool key 28:1 28:0", "wtype -k Return", "xdotool key Return"]
    );
    assert!(enter_key_attempts(&tools(&[])).is_empty());
}

#[test]
fn clipboard_is_pasted_by_the_installed_tools() {
    let commands = paste_attempts(&tools(&["ydotool", "wtype", "xdotool"]), true);
    let lines: Vec<String> = commands.iter().map(shown).collect();
    assert_eq!(
        lines,
        vec![
            "ydotool key 29:1 42:1 47:1 47:0 42:0 29:0",
            "ydotool key 42:1 110:1 110:0 42:0",
            "wtype -M ctrl -M shift -P v -m shift -m ctrl",
            "xdotool key ctrl+v",
        ]
    );
    assert_eq!(paste_attempts(&tools(&["ydotool"]), false).len(), 1);
    assert_eq!(paste_attempts(&tools(&["wtype"]), true).len(), 1);
}

#[test]
fn attempts_end_with_the_first_success() {
    assert_eq!(next_attempt(3, &vec![]), Some(0));
    assert_eq!(next_attempt(3, &vec![false]), Some(1));
    assert_eq!(next_attempt(3, &vec![false, true]), None);
    assert_eq!(next_attempt(2, &vec![false, false]), None);
    assert_eq!(next_attempt(0, &vec![]), None);
}

#[test]
fn backends_of_the_clipboard() {
    let backends = clipboard_backends(&tools(&["wl-copy", "xclip", "xsel"]));
    let lines: Vec<String> = backends.iter().map(|b| shown(&b.command)).collect();
    assert_eq!(
        lines,
        vec![
            "wl-copy --type text/plain",
            "xclip -selection clipboard",
            "xsel --clipboard --input",
        ]
    );
    assert!(backends.iter().all(|b| b.use_stdin && b.name == b.command.program));
    assert_eq!(clipboard_backends(&tools(&["xsel"])).len(), 1);
    assert_eq!(
        shown(&primary_selection_command()),
        "wl-copy --type text/plain --primary"
    );
}

#[test]
fn a_backend_must_start_take_the_text_and_end_well() {
    assert!(backend_copied(true, false, true));
    assert!(!backend_copied(false, false, true));
    assert!(!backend_copied(true, true, true));
    assert!(!backend_copied(true, false, false));
}

#[test]
fn failures_of_text_output() {
    let none: Vec<bool> = Vec::new();
    assert_eq!(fallback_copy_outcome(&vec![false, true]), Ok(()));
    let err = fallback_copy_outcome(&none).unwrap_err();
    assert_eq!(
        err.message(),
        "No clipboard tool (wl-copy/xclip/xsel) available for fallback"
    );
    assert_eq!(copy_to_clipboard_sync("", &none), Ok(()));
    assert_eq!(copy_to_clipboard_sync("x", &vec![true]), Ok(()));
    let err = copy_to_clipboard_sync("x", &none).unwrap_err();
    assert_eq!(
        err.message(),
        "No clipboard tool available. Please install wl-copy (Wayland), xclip, or xsel (X11)."
    );
    let service = service(&["wtype"], false, true);
    assert_eq!(service.send_enter_key(&vec![false, true]), Ok(()));
    let err = service.send_enter_key(&vec![false]).unwrap_err();
    assert_eq!(err, TextIoError::EnterKey);
    assert_eq!(
        err.message(),
        "Unable to send Enter key with available backends"
    );
}

fn service(names: &[&str], preserve: bool, native: bool) -> TextIoService {
    TextIoService::new(None, preserve, native, &tools(names), false)
}

#[test]
fn empty_text_is_not_copied() {
    let mut s = service(&["wl-copy"], true, true);
    let mut flow = s.copy_to_clipboard("", &tools(&["wl-copy"]));
    assert!(matches!(s.advance_copy(&mut flow, CopyReply::Done), CopyAction::Finished));
}

fn drive(s: &mut TextIoService, flow: &mut CopyFlow, replies: Vec<CopyReply>) -> Vec<String> {
    let mut seen: Vec<String> = Vec::new();
    for reply in replies {
        let action = s.advance_copy(flow, reply);
        seen.push(format!("{:?}", action));
    }
    seen
}

#[test]
fn previous_text_is_put_back_once() {
    let t = tools(&["wl-copy"]);
    let mut s = service(&["wl-copy"], true, true);
    let mut flow = s.copy_to_clipboard("new", &t);
    let replies = vec![
        CopyReply::Done,
        CopyReply::Read(Some("old".to_string())),
        CopyReply::Done,
        CopyReply::Failed,
    ];
    let seen = drive(&mut s, &mut flow, replies);
    assert_eq!(
        seen,
        vec![
            "ReadNative",
            "SetNative(\"new\")",
            "SetPrimary(\"new\")",
            "Finished",
        ]
    );
    assert_eq!(s.pending_restore.as_deref(), Some("old"));
    assert!(s.paste_from_clipboard(&vec![false], &t).is_none());
    let mut back = s.paste_from_clipboard(&vec![false, true], &t).unwrap();
    let seen = drive(&mut s, &mut back, vec![CopyReply::Done, CopyReply::Done, CopyReply::Done]);
    assert_eq!(
        seen,
        vec!["SetNative(\"old\")", "SetPrimary(\"old\")", "Finished"]
    );
    assert!(s.restore_preserved_clipboard(&t).is_none());
}

#[test]
fn an_empty_previous_text_is_put_back_too() {
    let t = tools(&[]);
    let mut s = service(&[], true, true);
    s.pending_restore = Some(String::new());
    let mut back = s.restore_preserved_clipboard(&t).unwrap();
    let seen = drive(&mut s, &mut back, vec![CopyReply::Done, CopyReply::Done]);
    assert_eq!(seen, vec!["SetNative(\"\")", "Finished"]);
}

#[test]
fn failing_native_clipboard_is_given_up() {
    let t = tools(&["xclip"]);
    let mut s = service(&["xclip"], false, true);
    let mut flow = s.copy_to_clipboard("new", &t);
    let replies = vec![CopyReply::Done, CopyReply::Failed, CopyReply::Done];
    let seen = drive(&mut s, &mut flow, replies);
    assert_eq!(
        seen,
        vec!["SetNative(\"new\")", "RunBackends(\"new\")", "Finished"]
    );
    assert!(!s.native_clipboard);
    let mut flow = s.copy_to_clipboard("x", &t);
    let seen = drive(&mut s, &mut flow, vec![CopyReply::Done, CopyReply::Failed]);
    assert_eq!(seen, vec!["RunBackends(\"x\")", "Failed"]);
    assert_eq!(s.pending_restore, None);
}

#[test]
fn nothing_is_put_back_unless_asked_for() {
    let t = tools(&[]);
    let mut s = service(&[], false, true);
    s.pending_restore = Some("old".to_string());
    assert!(s.restore_preserved_clipboard(&t).is_none());
    assert_eq!(s.pending_restore.as_deref(), Some("old"));
}

#[test]
fn text_is_typed_or_pasted() {
    let s = service(&["ydotool"], false, true);
    assert_eq!(s.injection_method(), InjectionMethod::Ydotool);
    let mut flow = s.inject_text("hi there");
    match s.advance_inject(&mut flow, true) {
        InjectAction::Run(c) => {
            assert_eq!(c.program, "ydotool");
            assert_eq!(c.args, vec!["type", "hi there"]);
        }
        other => panic!("{:?}", other),
    }
    assert!(matches!(s.advance_inject(&mut flow, true), InjectAction::Finished));

    let s = service(&["wtype"], false, true);
    let mut flow = s.inject_text("hi");
    match s.advance_inject(&mut flow, true) {
        InjectAction::Run(c) => assert_eq!(shown(&c), "wtype hi"),
        other => panic!("{:?}", other),
    }
    match s.advance_inject(&mut flow, false) {
        InjectAction::Copy(text) => assert_eq!(text, "hi"),
        other => panic!("{:?}", other),
    }
    assert!(matches!(s.advance_inject(&mut flow, true), InjectAction::Paste));
    assert!(matches!(s.advance_inject(&mut flow, false), InjectAction::Finished));

    let s = service(&[], false, true);
    let mut flow = s.inject_text("hi");
    assert!(matches!(s.advance_inject(&mut flow, true), InjectAction::Paste));
    let mut flow = s.inject_text("");
    assert!(matches!(s.advance_inject(&mut flow, true), InjectAction::Finished));
}

#[test]
fn text_that_can_neither_be_typed_nor_copied_fails() {
    let s = service(&["wtype"], false, true);
    let mut flow = s.inject_text("hi");
    s.advance_inject(&mut flow, true);
    s.advance_inject(&mut flow, false);
    assert!(matches!(s.advance_inject(&mut flow, false), InjectAction::Failed));
}
