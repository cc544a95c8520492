//! The KDE Plasma probe for Wayland sessions. The compositor offers no query
//! for the active window, so the probe loads a short script into it, runs the
//! script, and reads the line that the script printed back from the system log.
//! The script file is removed on every way out once it has been written.

use vstd::prelude::*;

use crate::probe::{
    class_report, classify, failed, failure, found, outcome_view, ProbeAction, ProbeError, ProbeErrorKind,
    ProbeEvent, Request, PAUSE_MS,
};
use crate::text::{
    chars_of, contains, decimal, has, joined, line_at, next_line, next_start, push_decimal, second_field,
    split_second, string_of, trim, trimmed,
};

verus! {

broadcast use vstd::string::group_string_axioms;

/// The script that the compositor runs: it prints the class of the active
/// window after `ACTIVE_WINDOW:`, or its own failure after `ERROR:`.
pub const KWIN_SCRIPT: &'static str = "
try {
    const activeWindow = workspace.activeWindow;
    if (activeWindow && activeWindow.resourceClass) {
        print(\"ACTIVE_WINDOW:\" + activeWindow.resourceClass.toString());
    } else {
        print(\"ACTIVE_WINDOW:\");
    }
} catch (e) {
    print(\"ERROR:\" + e.toString());
}
";

/// The name of the script file in the temporary directory.
pub const SCRIPT_FILE_NAME: &'static str = "kwin_get_active_window.js";

/// The D-Bus control tools, in the order in which they are tried.
pub open spec fn control_tools() -> Seq<Seq<char>> {
    seq!["qdbus6"@, "qdbus"@]
}

/// Where the KDE probe stands; `tool` is the index of the control tool in use.
#[derive(Debug)]
pub enum KdeState {
    /// Waiting for the version check of a control tool.
    CheckingTool { index: usize },
    /// Waiting for the script file to be written.
    WritingScript { tool: usize },
    /// Waiting for the time at which the log is to be read from.
    ReadingClock { tool: usize },
    /// Waiting for the compositor to load the script.
    Loading { tool: usize, since: u64 },
    /// Waiting for the compositor to run the loaded script `id`.
    Running { tool: usize, since: u64, id: String },
    /// Waiting for the compositor to stop the script.
    Stopping { since: u64 },
    /// Waiting for the script's output to reach the log.
    Waiting { since: u64 },
    /// Waiting for the log.
    ReadingLog,
    /// Waiting for the script file to be removed; the outcome is then reported.
    Cleaning { outcome: Result<String, ProbeError> },
    /// The probe has finished.
    Done,
}

/// A state of the KDE probe as a mathematical value.
pub enum KdePhase {
    CheckingTool { index: usize },
    WritingScript { tool: usize },
    ReadingClock { tool: usize },
    Loading { tool: usize, since: u64 },
    Running { tool: usize, since: u64, id: Seq<char> },
    Stopping { since: u64 },
    Waiting { since: u64 },
    ReadingLog,
    Cleaning { outcome: Result<Seq<char>, (ProbeErrorKind, Seq<char>)> },
    Done,
}

impl View for KdeState {
    type V = KdePhase;

    open spec fn view(&self) -> KdePhase {
        match self {
            KdeState::CheckingTool { index } => KdePhase::CheckingTool { index: *index },
            KdeState::WritingScript { tool } => KdePhase::WritingScript { tool: *tool },
            KdeState::ReadingClock { tool } => KdePhase::ReadingClock { tool: *tool },
            KdeState::Loading { tool, since } => KdePhase::Loading { tool: *tool, since: *since },
            KdeState::Running { tool, since, id } => KdePhase::Running {
                tool: *tool,
                since: *since,
                id: id@,
            },
            KdeState::Stopping { since } => KdePhase::Stopping { since: *since },
            KdeState::Waiting { since } => KdePhase::Waiting { since: *since },
            KdeState::ReadingLog => KdePhase::ReadingLog,
            KdeState::Cleaning { outcome } => KdePhase::Cleaning { outcome: outcome_view(*outcome) },
            KdeState::Done => KdePhase::Done,
        }
    }
}

/// The version check of control tool `i`.
pub open spec fn version_check(i: int) -> Seq<Seq<char>> {
    seq![control_tools()[i], "--version"@]
}

/// The command that loads the script file at `path` into the compositor.
pub open spec fn load_command(tool: int, path: Seq<char>) -> Seq<Seq<char>> {
    seq![
        control_tools()[tool],
        "org.kde.KWin"@,
        "/Scripting"@,
        "org.kde.kwin.Scripting.loadScript"@,
        path,
    ]
}

/// The command that calls `method` on the loaded script `id`.
pub open spec fn script_command(tool: int, id: Seq<char>, method: Seq<char>) -> Seq<Seq<char>> {
    seq![control_tools()[tool], "org.kde.KWin"@, "/Scripting/Script"@ + id, method]
}

/// The command that reads the compositor's log lines from second `since` on.
pub open spec fn log_command(since: u64) -> Seq<Seq<char>> {
    seq![
        "journalctl"@,
        "_COMM=kwin_wayland"@,
        "-o"@,
        "cat"@,
        "--since"@,
        "@"@ + decimal(since as nat),
        "--no-pager"@,
    ]
}

/// The outcome that the log lines from position `i` on hold: the first line that
/// names a non-empty window class gives that class's application; before that,
/// a line that reports a script error gives that error; without either, no
/// application is active.
pub open spec fn log_outcome(log: Seq<char>, i: int) -> Result<Seq<char>, (ProbeErrorKind, Seq<char>)>
    decreases log.len() - i,
    via log_outcome_decreases
{
    if i < 0 || i >= log.len() {
        Ok(Seq::empty())
    } else {
        let line = line_at(log, i);
        let class = trim(second_field(line, "ACTIVE_WINDOW:"@));
        if contains(line, "ACTIVE_WINDOW:"@) && class.len() > 0 {
            Ok(class_report(class))
        } else if contains(line, "ERROR:"@) {
            Err((ProbeErrorKind::ScriptReported, trim(second_field(line, "ERROR:"@))))
        } else {
            log_outcome(log, next_start(log, i))
        }
    }
}

#[via_fn]
proof fn log_outcome_decreases(log: Seq<char>, i: int) {
    if 0 <= i < log.len() {
        crate::text::lemma_line_stop(log, i);
    }
}

/// The probe moves on to removing the script file, and then reports `outcome`.
pub open spec fn clean_up(outcome: Result<Seq<char>, (ProbeErrorKind, Seq<char>)>) -> (
    KdePhase,
    Request,
) {
    (KdePhase::Cleaning { outcome }, Request::RemoveScript)
}

/// The probe gives up with `kind`, removing the script file first.
pub open spec fn clean_up_failed(kind: ProbeErrorKind) -> (KdePhase, Request) {
    clean_up(Err((kind, Seq::empty())))
}

/// The next state and request of the KDE probe, with the script file at `path`.
pub open spec fn kde_next(s: KdePhase, e: ProbeEvent, path: Seq<char>) -> (KdePhase, Request) {
    match s {
        KdePhase::CheckingTool { index } => match e {
            ProbeEvent::Ran { success: true, .. } => (
                KdePhase::WritingScript { tool: index },
                Request::WriteScript,
            ),
            ProbeEvent::Ran { success: false, .. } | ProbeEvent::SpawnFailed => {
                if index + 1 < control_tools().len() {
                    (
                        KdePhase::CheckingTool { index: (index + 1) as usize },
                        Request::Run(version_check(index + 1)),
                    )
                } else {
                    (KdePhase::Done, failed(ProbeErrorKind::NoControlTool))
                }
            },
            _ => (KdePhase::Done, failed(ProbeErrorKind::UnexpectedEvent)),
        },
        KdePhase::WritingScript { tool } => match e {
            ProbeEvent::ScriptWritten(true) => (
                KdePhase::ReadingClock { tool },
                Request::ReadClock,
            ),
            ProbeEvent::ScriptWritten(false) => clean_up_failed(ProbeErrorKind::ScriptWriteFailed),
            _ => clean_up_failed(ProbeErrorKind::UnexpectedEvent),
        },
        KdePhase::ReadingClock { tool } => match e {
            ProbeEvent::Clock(now) => (
                KdePhase::Loading { tool, since: now },
                Request::Run(load_command(tool as int, path)),
            ),
            _ => clean_up_failed(ProbeErrorKind::UnexpectedEvent),
        },
        KdePhase::Loading { tool, since } => match e {
            ProbeEvent::Ran { success, stdout, stderr } => {
                let id = trim(stdout@);
                if !success {
                    clean_up(Err((ProbeErrorKind::ScriptLoadFailed, stderr@)))
                } else if id.len() == 0 {
                    clean_up_failed(ProbeErrorKind::NoScriptId)
                } else {
                    (
                        KdePhase::Running { tool, since, id },
                        Request::Run(script_command(tool as int, id, "org.kde.kwin.Script.run"@)),
                    )
                }
            },
            ProbeEvent::SpawnFailed => clean_up_failed(ProbeErrorKind::ToolUnavailable),
            _ => clean_up_failed(ProbeErrorKind::UnexpectedEvent),
        },
        KdePhase::Running { tool, since, id } => match e {
            ProbeEvent::Ran { success, stderr, .. } => {
                if success {
                    (
                        KdePhase::Stopping { since },
                        Request::Run(script_command(tool as int, id, "org.kde.kwin.Script.stop"@)),
                    )
                } else {
                    clean_up(Err((ProbeErrorKind::ScriptRunFailed, stderr@)))
                }
            },
            ProbeEvent::SpawnFailed => clean_up_failed(ProbeErrorKind::ToolUnavailable),
            _ => clean_up_failed(ProbeErrorKind::UnexpectedEvent),
        },
        KdePhase::Stopping { since } => match e {
            ProbeEvent::Ran { .. } | ProbeEvent::SpawnFailed => (
                KdePhase::Waiting { since },
                Request::Pause(PAUSE_MS),
            ),
            _ => clean_up_failed(ProbeErrorKind::UnexpectedEvent),
        },
        KdePhase::Waiting { since } => match e {
            ProbeEvent::Paused => (KdePhase::ReadingLog, Request::Run(log_command(since))),
            _ => clean_up_failed(ProbeErrorKind::UnexpectedEvent),
        },
        KdePhase::ReadingLog => match e {
            ProbeEvent::Ran { success, stdout, .. } => {
                if success {
                    clean_up(log_outcome(stdout@, 0))
                } else {
                    clean_up_failed(ProbeErrorKind::LogQueryFailed)
                }
            },
            ProbeEvent::SpawnFailed => clean_up_failed(ProbeErrorKind::ToolUnavailable),
            _ => clean_up_failed(ProbeErrorKind::UnexpectedEvent),
        },
        KdePhase::Cleaning { outcome } => match e {
            ProbeEvent::ScriptRemoved => (KdePhase::Done, Request::Finish(outcome)),
            _ => clean_up(outcome),
        },
        KdePhase::Done => (KdePhase::Done, failed(ProbeErrorKind::UnexpectedEvent)),
    }
}


/// The requests the KDE probe makes from state `s` for the given outcomes, in turn.
pub open spec fn kde_run(s: KdePhase, events: Seq<ProbeEvent>, path: Seq<char>) -> Seq<Request>
    decreases events.len(),
{
    if events.len() == 0 {
        Seq::empty()
    } else {
        let (next, req) = kde_next(s, events[0], path);
        seq![req] + kde_run(next, events.drop_first(), path)
    }
}

/// The script file has been asked for, and its removal has not.
pub open spec fn holds_script(s: KdePhase) -> bool {
    match s {
        KdePhase::WritingScript { .. } | KdePhase::ReadingClock { .. } | KdePhase::Loading { .. }
        | KdePhase::Running { .. } | KdePhase::Stopping { .. } | KdePhase::Waiting { .. }
        | KdePhase::ReadingLog => true,
        _ => false,
    }
}

/// No request in `reqs` finishes the probe while a script file that was asked
/// for has not been asked to be removed; `pending` says whether one is at the start.
pub open spec fn removes_before_finishing(reqs: Seq<Request>, pending: bool) -> bool
    decreases reqs.len(),
{
    if reqs.len() == 0 {
        true
    } else {
        let rest = reqs.drop_first();
        match reqs[0] {
            Request::WriteScript => removes_before_finishing(rest, true),
            Request::RemoveScript => removes_before_finishing(rest, false),
            Request::Finish(_) => !pending && removes_before_finishing(rest, pending),
            _ => removes_before_finishing(rest, pending),
        }
    }
}

proof fn lemma_kde_step_keeps_track(s: KdePhase, e: ProbeEvent, path: Seq<char>)
    ensures
        ({
            let (next, req) = kde_next(s, e, path);
            &&& holds_script(next) == match req {
                Request::WriteScript => true,
                Request::RemoveScript => false,
                _ => holds_script(s),
            }
            &&& req is Finish ==> !holds_script(s)
        }),
{
}

proof fn lemma_kde_run_removes(s: KdePhase, events: Seq<ProbeEvent>, path: Seq<char>)
    ensures
        removes_before_finishing(kde_run(s, events, path), holds_script(s)),
    decreases events.len(),
{
    if events.len() > 0 {
        let (next, req) = kde_next(s, events[0], path);
        lemma_kde_step_keeps_track(s, events[0], path);
        lemma_kde_run_removes(next, events.drop_first(), path);
        let reqs = kde_run(s, events, path);
        assert(reqs[0] == req);
        assert(reqs.drop_first() =~= kde_run(next, events.drop_first(), path));
    }
}

/// Whatever the outcomes of its requests, including a script that fails to
/// load, once the KDE probe has asked for its script file to be written it
/// finishes only after it has asked for the file to be removed.
pub proof fn lemma_kde_removes_script(events: Seq<ProbeEvent>, path: Seq<char>)
    ensures
        removes_before_finishing(kde_run(KdePhase::CheckingTool { index: 0 }, events, path), false),
{
    lemma_kde_run_removes(KdePhase::CheckingTool { index: 0 }, events, path);
}

/// The state is one that the probe can be in: every tool index names a tool.
pub open spec fn kde_wf(s: KdePhase) -> bool {
    match s {
        KdePhase::CheckingTool { index } => index < control_tools().len(),
        KdePhase::WritingScript { tool } => tool < control_tools().len(),
        KdePhase::ReadingClock { tool } => tool < control_tools().len(),
        KdePhase::Loading { tool, .. } => tool < control_tools().len(),
        KdePhase::Running { tool, .. } => tool < control_tools().len(),
        _ => true,
    }
}

impl KdeState {
    /// Whether the state is one that the probe can be in.
    pub fn is_valid(&self) -> (r: bool)
        ensures
            r == kde_wf(self@),
    {
        match self {
            KdeState::CheckingTool { index } => *index < 2,
            KdeState::WritingScript { tool } => *tool < 2,
            KdeState::ReadingClock { tool } => *tool < 2,
            KdeState::Loading { tool, .. } => *tool < 2,
            KdeState::Running { tool, .. } => *tool < 2,
            _ => true,
        }
    }
}

fn tool_name(i: usize) -> (r: String)
    requires
        i < control_tools().len(),
    ensures
        r@ == control_tools()[i as int],
{
    if i == 0 {
        "qdbus6".to_string()
    } else {
        "qdbus".to_string()
    }
}

fn version_command(i: usize) -> (r: Vec<String>)
    requires
        i < control_tools().len(),
    ensures
        r@.map_values(|a: String| a@) == version_check(i as int),
{
    let r = vec![tool_name(i), "--version".to_string()];
    assert(r@.map_values(|a: String| a@) =~= version_check(i as int));
    r
}

fn load_script_command(tool: usize, path: &str) -> (r: Vec<String>)
    requires
        tool < control_tools().len(),
    ensures
        r@.map_values(|a: String| a@) == load_command(tool as int, path@),
{
    let r = vec![
        tool_name(tool),
        "org.kde.KWin".to_string(),
        "/Scripting".to_string(),
        "org.kde.kwin.Scripting.loadScript".to_string(),
        path.to_string(),
    ];
    assert(r@.map_values(|a: String| a@) =~= load_command(tool as int, path@));
    r
}

fn call_script_command(tool: usize, id: &str, method: &str) -> (r: Vec<String>)
    requires
        tool < control_tools().len(),
    ensures
        r@.map_values(|a: String| a@) == script_command(tool as int, id@, method@),
{
    let r = vec![
        tool_name(tool),
        "org.kde.KWin".to_string(),
        joined("/Scripting/Script", id),
        method.to_string(),
    ];
    assert(r@.map_values(|a: String| a@) =~= script_command(tool as int, id@, method@));
    r
}

fn read_log_command(since: u64) -> (r: Vec<String>)
    ensures
        r@.map_values(|a: String| a@) == log_command(since),
{
    let mut at = "@".to_string();
    push_decimal(&mut at, since);
    let r = vec![
        "journalctl".to_string(),
        "_COMM=kwin_wayland".to_string(),
        "-o".to_string(),
        "cat".to_string(),
        "--since".to_string(),
        at,
        "--no-pager".to_string(),
    ];
    assert(r@.map_values(|a: String| a@) =~= log_command(since));
    r
}

/// The outcome that the compositor's log lines hold.
pub fn parse_log(log: &str) -> (r: Result<String, ProbeError>)
    ensures
        outcome_view(r) == log_outcome(log@, 0),
{
    let text = chars_of(log);
    let window_tag = chars_of("ACTIVE_WINDOW:");
    let error_tag = chars_of("ERROR:");
    let mut i: usize = 0;
    while i < text.len()
        invariant
            text@ == log@,
            window_tag@ == "ACTIVE_WINDOW:"@,
            error_tag@ == "ERROR:"@,
            i <= text.len(),
            log_outcome(log@, 0) == log_outcome(log@, i as int),
        decreases text.len() - i,
    {
        let (line, next) = next_line(&text, i);
        let class = trimmed(&split_second(&line, &window_tag));
        if has(&line, &window_tag) && class.len() > 0 {
            return Ok(classify(string_of(&class).as_str()));
        }
        if has(&line, &error_tag) {
            let message = trimmed(&split_second(&line, &error_tag));
            return Err(ProbeError { kind: ProbeErrorKind::ScriptReported, detail: string_of(&message) });
        }
        i = next;
    }
    Ok(String::new())
}

fn clean_up_exec(outcome: Result<String, ProbeError>) -> (r: (KdeState, ProbeAction))
    ensures
        (r.0@, r.1@) == clean_up(outcome_view(outcome)),
{
    (KdeState::Cleaning { outcome }, ProbeAction::RemoveScript)
}

fn clean_up_failed_exec(kind: ProbeErrorKind) -> (r: (KdeState, ProbeAction))
    ensures
        (r.0@, r.1@) == clean_up_failed(kind),
{
    clean_up_exec(Err(failure(kind)))
}

/// The first state and request of the KDE probe.
pub fn kde_start() -> (r: (KdeState, ProbeAction))
    ensures
        r.0@ == (KdePhase::CheckingTool { index: 0 }),
        r.1@ == Request::Run(version_check(0)),
{
    (KdeState::CheckingTool { index: 0 }, ProbeAction::Run(version_command(0)))
}

/// The next state and request of the KDE probe, with the script file at `path`,
/// given the outcome of the last request.
pub fn kde_step(s: KdeState, e: ProbeEvent, path: &str) -> (r: (KdeState, ProbeAction))
    requires
        kde_wf(s@),
    ensures
        (r.0@, r.1@) == kde_next(s@, e, path@),
        kde_wf(r.0@),
{
    match s {
        KdeState::CheckingTool { index } => match e {
            ProbeEvent::Ran { success: true, .. } => (
                KdeState::WritingScript { tool: index },
                ProbeAction::WriteScript,
            ),
            ProbeEvent::Ran { success: false, .. } | ProbeEvent::SpawnFailed => {
                if index + 1 < 2 {
                    (
                        KdeState::CheckingTool { index: index + 1 },
                        ProbeAction::Run(version_command(index + 1)),
                    )
                } else {
                    (
                        KdeState::Done,
                        ProbeAction::Finish(Err(failure(ProbeErrorKind::NoControlTool))),
                    )
                }
            },
            _ => (KdeState::Done, ProbeAction::Finish(Err(failure(ProbeErrorKind::UnexpectedEvent)))),
        },
        KdeState::WritingScript { tool } => match e {
            ProbeEvent::ScriptWritten(true) => (KdeState::ReadingClock { tool }, ProbeAction::ReadClock),
            ProbeEvent::ScriptWritten(false) => clean_up_failed_exec(ProbeErrorKind::ScriptWriteFailed),
            _ => clean_up_failed_exec(ProbeErrorKind::UnexpectedEvent),
        },
        KdeState::ReadingClock { tool } => match e {
            ProbeEvent::Clock(now) => (
                KdeState::Loading { tool, since: now },
                ProbeAction::Run(load_script_command(tool, path)),
            ),
            _ => clean_up_failed_exec(ProbeErrorKind::UnexpectedEvent),
        },
        KdeState::Loading { tool, since } => match e {
            ProbeEvent::Ran { success, stdout, stderr } => {
                let id = trimmed(&chars_of(stdout.as_str()));
                if !success {
                    clean_up_exec(Err(ProbeError { kind: ProbeErrorKind::ScriptLoadFailed, detail: stderr }))
                } else if id.len() == 0 {
                    clean_up_failed_exec(ProbeErrorKind::NoScriptId)
                } else {
                    let id = string_of(&id);
                    let run = call_script_command(tool, id.as_str(), "org.kde.kwin.Script.run");
                    (KdeState::Running { tool, since, id }, ProbeAction::Run(run))
                }
            },
            ProbeEvent::SpawnFailed => clean_up_failed_exec(ProbeErrorKind::ToolUnavailable),
            _ => clean_up_failed_exec(ProbeErrorKind::UnexpectedEvent),
        },
        KdeState::Running { tool, since, id } => match e {
            ProbeEvent::Ran { success, stderr, .. } => {
                if success {
                    let stop = call_script_command(tool, id.as_str(), "org.kde.kwin.Script.stop");
                    (KdeState::Stopping { since }, ProbeAction::Run(stop))
                } else {
                    clean_up_exec(Err(ProbeError { kind: ProbeErrorKind::ScriptRunFailed, detail: stderr }))
                }
            },
            ProbeEvent::SpawnFailed => clean_up_failed_exec(ProbeErrorKind::ToolUnavailable),
            _ => clean_up_failed_exec(ProbeErrorKind::UnexpectedEvent),
        },
        KdeState::Stopping { since } => match e {
            ProbeEvent::Ran { .. } | ProbeEvent::SpawnFailed => (
                KdeState::Waiting { since },
                ProbeAction::Pause(PAUSE_MS),
            ),
            _ => clean_up_failed_exec(ProbeErrorKind::UnexpectedEvent),
        },
        KdeState::Waiting { since } => match e {
            ProbeEvent::Paused => (KdeState::ReadingLog, ProbeAction::Run(read_log_command(since))),
            _ => clean_up_failed_exec(ProbeErrorKind::UnexpectedEvent),
        },
        KdeState::ReadingLog => match e {
            ProbeEvent::Ran { success, stdout, .. } => {
                if success {
                    clean_up_exec(parse_log(stdout.as_str()))
                } else {
                    clean_up_failed_exec(ProbeErrorKind::LogQueryFailed)
                }
            },
            ProbeEvent::SpawnFailed => clean_up_failed_exec(ProbeErrorKind::ToolUnavailable),
            _ => clean_up_failed_exec(ProbeErrorKind::UnexpectedEvent),
        },
        KdeState::Cleaning { outcome } => match e {
            ProbeEvent::ScriptRemoved => (KdeState::Done, ProbeAction::Finish(outcome)),
            _ => clean_up_exec(outcome),
        },
        KdeState::Done => (KdeState::Done, ProbeAction::Finish(Err(failure(ProbeErrorKind::UnexpectedEvent)))),
    }
}

} // verus!
