use processforlinux::kde::{kde_start, kde_step, parse_log, KdeState, KWIN_SCRIPT, SCRIPT_FILE_NAME};
use processforlinux::probe::{ProbeAction, ProbeErrorKind, ProbeEvent, PAUSE_MS};
use processforlinux::x11::{
    parse_active_window_id, parse_window_class, x11_start, x11_step, X11State, X11_MAX_ATTEMPTS,
};

fn ran(stdout: &str) -> ProbeEvent {
    ProbeEvent::Ran { success: true, stdout: stdout.to_string(), stderr: String::new() }
}

fn failed_run(stderr: &str) -> ProbeEvent {
    ProbeEvent::Ran { success: false, stdout: String::new(), stderr: stderr.to_string() }
}

fn words(a: &ProbeAction) -> Vec<String> {
    match a {
        ProbeAction::Run(v) => v.clone(),
        other => panic!("expected a command, got {:?}", other),
    }
}

const ROOT_OUT: &str = "_NET_ACTIVE_WINDOW(WINDOW): window id # 0x3a00007\n";
const CLASS_OUT: &str = "WM_CLASS(STRING) = \"google-chrome\", \"Google-chrome\"\n";

#[test]
fn x11_finds_active_application() {
    let (s, a) = x11_start();
    assert_eq!(words(&a), vec!["xprop", "-root", "_NET_ACTIVE_WINDOW"]);
    let (s, a) = x11_step(s, ran(ROOT_OUT));
    assert_eq!(s, X11State::Class { failures: 0 });
    assert_eq!(words(&a), vec!["xprop", "-id", "0x3a00007", "WM_CLASS"]);
    let (s, a) = x11_step(s, ran(CLASS_OUT));
    assert_eq!(s, X11State::Done);
    match a {
        ProbeAction::Finish(Ok(name)) => assert_eq!(name, "Chrome"),
        other => panic!("unexpected {:?}", other),
    }
}

#[test]
fn x11_gives_up_after_max_attempts_without_error() {
    let (mut s, mut a) = x11_start();
    let mut queries = 1;
    let mut pauses = 0;
    loop {
        let event = match a {
            ProbeAction::Run(_) => ran("_NET_ACTIVE_WINDOW:  not found.\n"),
            ProbeAction::Pause(ms) => {
                assert_eq!(ms, PAUSE_MS);
                pauses += 1;
                ProbeEvent::Paused
            },
            ProbeAction::Finish(r) => {
                assert_eq!(r.unwrap(), "");
                break;
            },
            other => panic!("unexpected {:?}", other),
        };
        let (s2, a2) = x11_step(s, event);
        if matches!(a2, ProbeAction::Run(_)) {
            queries += 1;
        }
        s = s2;
        a = a2;
    }
    assert_eq!(queries, X11_MAX_ATTEMPTS);
    assert_eq!(pauses, X11_MAX_ATTEMPTS - 1);
    assert_eq!(s, X11State::Done);
}

#[test]
fn x11_retries_when_class_is_missing() {
    let (s, _) = x11_step(X11State::Root { failures: 0 }, ran(ROOT_OUT));
    let (s, a) = x11_step(s, ran("WM_CLASS:  not found.\n"));
    assert_eq!(s, X11State::Pausing { failures: 1 });
    assert!(matches!(a, ProbeAction::Pause(200)));
    let (s, a) = x11_step(s, ProbeEvent::Paused);
    assert_eq!(s, X11State::Root { failures: 1 });
    assert_eq!(words(&a), vec!["xprop", "-root", "_NET_ACTIVE_WINDOW"]);
}

#[test]
fn x11_unknown_class_is_empty() {
    let (s, a) = x11_step(X11State::Class { failures: 2 }, ran("WM_CLASS(STRING) = \"xeyes\", \"XEyes\"\n"));
    assert_eq!(s, X11State::Done);
    assert!(matches!(a, ProbeAction::Finish(Ok(ref n)) if n.is_empty()));
}

#[test]
fn x11_tool_failure_is_an_error() {
    let (_, a) = x11_step(X11State::Root { failures: 0 }, ProbeEvent::SpawnFailed);
    assert!(matches!(a, ProbeAction::Finish(Err(ref e)) if e.kind == ProbeErrorKind::ToolUnavailable));
    let (_, a) = x11_step(X11State::Root { failures: 0 }, ProbeEvent::Paused);
    assert!(matches!(a, ProbeAction::Finish(Err(ref e)) if e.kind == ProbeErrorKind::UnexpectedEvent));
}

#[test]
fn x11_output_parsing() {
    assert_eq!(parse_active_window_id(ROOT_OUT).iter().collect::<String>(), "0x3a00007");
    assert_eq!(parse_active_window_id("other line\n").len(), 0);
    assert_eq!(parse_active_window_id("_NET_ACTIVE_WINDOW(WINDOW): window id #").len(), 0);
    assert_eq!(parse_window_class(CLASS_OUT), Some("google-chrome".to_string()));
    assert_eq!(parse_window_class("WM_CLASS(STRING) = none\r\n"), Some(String::new()));
    assert_eq!(parse_window_class("nothing"), None);
}

struct Trace {
    written: bool,
    removed_after_write: bool,
    finished_while_written: bool,
}

fn finish_kind(a: &ProbeAction) -> Option<ProbeErrorKind> {
    match a {
        ProbeAction::Finish(Err(e)) => Some(e.kind),
        _ => None,
    }
}

fn run_kde(events: Vec<ProbeEvent>) -> (ProbeAction, Vec<Vec<String>>, Trace) {
    let path = "/tmp/kwin_get_active_window.js";
    let (mut s, mut a) = kde_start();
    let mut commands = vec![words(&a)];
    let mut trace = Trace { written: false, removed_after_write: false, finished_while_written: false };
    for e in events {
        assert!(s.is_valid());
        let (s2, a2) = kde_step(s, e, path);
        match &a2 {
            ProbeAction::WriteScript => trace.written = true,
            ProbeAction::RemoveScript => {
                if trace.written {
                    trace.removed_after_write = true;
                }
            },
            ProbeAction::Finish(_) => {
                if trace.written && !trace.removed_after_write {
                    trace.finished_while_written = true;
                }
            },
            ProbeAction::Run(v) => commands.push(v.clone()),
            _ => {},
        }
        s = s2;
        a = a2;
    }
    (a, commands, trace)
}

#[test]
fn kde_finds_active_application() {
    let (a, commands, trace) = run_kde(vec![
        ran("qdbus 6.7"),
        ProbeEvent::ScriptWritten(true),
        ProbeEvent::Clock(1700000000),
        ran("3\n"),
        ran(""),
        ran(""),
        ProbeEvent::Paused,
        ran("kwin started\nACTIVE_WINDOW:firefox\n"),
        ProbeEvent::ScriptRemoved,
    ]);
    match a {
        ProbeAction::Finish(Ok(name)) => assert_eq!(name, "Firefox"),
        other => panic!("unexpected {:?}", other),
    }
    assert!(trace.written && trace.removed_after_write && !trace.finished_while_written);
    assert_eq!(commands[0], vec!["qdbus6", "--version"]);
    assert_eq!(
        commands[1],
        vec![
            "qdbus6",
            "org.kde.KWin",
            "/Scripting",
            "org.kde.kwin.Scripting.loadScript",
            "/tmp/kwin_get_active_window.js"
        ]
    );
    assert_eq!(commands[2], vec!["qdbus6", "org.kde.KWin", "/Scripting/Script3", "org.kde.kwin.Script.run"]);
    assert_eq!(commands[3], vec!["qdbus6", "org.kde.KWin", "/Scripting/Script3", "org.kde.kwin.Script.stop"]);
    assert_eq!(
        commands[4],
        vec!["journalctl", "_COMM=kwin_wayland", "-o", "cat", "--since", "@1700000000", "--no-pager"]
    );
}

#[test]
fn kde_removes_script_when_loading_fails() {
    let (a, _, trace) = run_kde(vec![
        ProbeEvent::SpawnFailed,
        ran("qdbus 5"),
        ProbeEvent::ScriptWritten(true),
        ProbeEvent::Clock(5),
        failed_run("no such service"),
        ProbeEvent::ScriptRemoved,
    ]);
    match a {
        ProbeAction::Finish(Err(e)) => {
            assert_eq!(e.kind, ProbeErrorKind::ScriptLoadFailed);
            assert_eq!(e.detail, "no such service");
        },
        other => panic!("unexpected {:?}", other),
    }
    assert!(trace.written && trace.removed_after_write && !trace.finished_while_written);
}

#[test]
fn kde_second_tool_is_used_when_first_is_missing() {
    let (_, commands, _) = run_kde(vec![ProbeEvent::SpawnFailed, ran("qdbus 5"), ProbeEvent::ScriptWritten(true), ProbeEvent::Clock(9)]);
    assert_eq!(commands[1], vec!["qdbus", "--version"]);
    assert_eq!(commands[2][0], "qdbus");
}

#[test]
fn kde_without_control_tool_fails_without_script() {
    let (a, _, trace) = run_kde(vec![ProbeEvent::SpawnFailed, failed_run("")]);
    assert_eq!(finish_kind(&a), Some(ProbeErrorKind::NoControlTool));
    assert!(!trace.written);
}

#[test]
fn kde_error_paths_remove_script() {
    let prefix = || vec![ran("v"), ProbeEvent::ScriptWritten(true), ProbeEvent::Clock(1)];
    let cases: Vec<(Vec<ProbeEvent>, ProbeErrorKind)> = vec![
        (vec![ProbeEvent::ScriptWritten(false)], ProbeErrorKind::ScriptWriteFailed),
        (vec![ran("  \n")], ProbeErrorKind::NoScriptId),
        (vec![ProbeEvent::SpawnFailed], ProbeErrorKind::ToolUnavailable),
        (vec![ran("4"), failed_run("boom")], ProbeErrorKind::ScriptRunFailed),
        (vec![ran("4"), ran(""), ran(""), ProbeEvent::Paused, failed_run("")], ProbeErrorKind::LogQueryFailed),
        (
            vec![ran("4"), ran(""), ProbeEvent::SpawnFailed, ProbeEvent::Paused, ran("ERROR: ReferenceError x\n")],
            ProbeErrorKind::ScriptReported,
        ),
        (vec![ProbeEvent::Paused], ProbeErrorKind::UnexpectedEvent),
    ];
    for (tail, kind) in cases {
        let mut events = if kind == ProbeErrorKind::ScriptWriteFailed {
            vec![ran("v")]
        } else {
            prefix()
        };
        events.extend(tail);
        events.push(ProbeEvent::ScriptRemoved);
        let (a, _, trace) = run_kde(events);
        assert_eq!(finish_kind(&a), Some(kind));
        assert!(trace.written && trace.removed_after_write && !trace.finished_while_written);
    }
}

#[test]
fn kde_cleaning_repeats_removal_until_confirmed() {
    let (s, a) = kde_step(KdeState::Cleaning { outcome: Ok(String::new()) }, ProbeEvent::Paused, "/p");
    assert!(matches!(a, ProbeAction::RemoveScript));
    let (_, a) = kde_step(s, ProbeEvent::ScriptRemoved, "/p");
    assert!(matches!(a, ProbeAction::Finish(Ok(ref n)) if n.is_empty()));
}

#[test]
fn log_parsing() {
    assert_eq!(parse_log("a\nACTIVE_WINDOW: jetbrains-idea \r\nACTIVE_WINDOW:code").unwrap(), "IDEA");
    assert_eq!(parse_log("ACTIVE_WINDOW:\nACTIVE_WINDOW:konsole\n").unwrap(), "iTerm2");
    assert_eq!(parse_log("ACTIVE_WINDOW:unknownapp\n").unwrap(), "");
    assert_eq!(parse_log("").unwrap(), "");
    let e = parse_log("x\nERROR: TypeError: bad\nACTIVE_WINDOW:code").unwrap_err();
    assert_eq!(e.kind, ProbeErrorKind::ScriptReported);
    assert_eq!(e.detail, "TypeError: bad");
}

#[test]
fn script_text_prints_tagged_lines() {
    assert!(KWIN_SCRIPT.contains("print(\"ACTIVE_WINDOW:\" + activeWindow.resourceClass.toString());"));
    assert!(KWIN_SCRIPT.contains("print(\"ERROR:\" + e.toString());"));
    assert_eq!(SCRIPT_FILE_NAME, "kwin_get_active_window.js");
}
