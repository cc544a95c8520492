//! The X11 probe: ask the X server for the active window, then for that
//! window's class, retrying a bounded number of times.

use vstd::prelude::*;

use crate::probe::{
    class_report, classify, failed, failure, found, ProbeAction, ProbeErrorKind, ProbeEvent,
    Request, PAUSE_MS,
};
use crate::text::{chars_of, first_line_with, line_with, nth_word, second_field, split_second, string_of, word};

verus! {

/// How many times the probe asks before it reports that no window is active.
pub const X11_MAX_ATTEMPTS: u32 = 5;

/// Where the X11 probe stands. `failures` counts the attempts that found nothing.
#[derive(PartialEq, Eq, Structural, Clone, Copy, Debug)]
pub enum X11State {
    /// Waiting for the root window's active-window property.
    Root { failures: u32 },
    /// Waiting for the active window's class property.
    Class { failures: u32 },
    /// Waiting for the pause before the next attempt.
    Pausing { failures: u32 },
    /// The probe has finished.
    Done,
}

/// The command that reads the root window's active-window property.
pub open spec fn root_query() -> Seq<Seq<char>> {
    seq!["xprop"@, "-root"@, "_NET_ACTIVE_WINDOW"@]
}

/// The command that reads the class property of window `id`.
pub open spec fn class_query(id: Seq<char>) -> Seq<Seq<char>> {
    seq!["xprop"@, "-id"@, id, "WM_CLASS"@]
}

/// The active window's id in the output of `root_query`: the fifth word of the
/// first line that names the property; empty where there is none.
pub open spec fn active_window_id(out: Seq<char>) -> Seq<char> {
    match first_line_with(out, 0, "_NET_ACTIVE_WINDOW(WINDOW)"@) {
        Some(line) => nth_word(line, 0, 4),
        None => Seq::empty(),
    }
}

/// The window class in the output of `class_query`: the text inside the first
/// pair of quotes of the first line that names the property, where there is one.
pub open spec fn window_class(out: Seq<char>) -> Option<Seq<char>> {
    match first_line_with(out, 0, "WM_CLASS(STRING)"@) {
        Some(line) => Some(second_field(line, "\""@)),
        None => None,
    }
}

/// After an attempt that found nothing: give up with an empty result once the
/// attempts are used up, else pause before the next one.
pub open spec fn x11_retry(failures: u32) -> (X11State, Request) {
    if failures + 1 >= X11_MAX_ATTEMPTS {
        (X11State::Done, found(Seq::empty()))
    } else {
        (X11State::Pausing { failures: (failures + 1) as u32 }, Request::Pause(PAUSE_MS))
    }
}

/// The next state and request of the X11 probe.
pub open spec fn x11_next(s: X11State, e: ProbeEvent) -> (X11State, Request) {
    match (s, e) {
        (X11State::Root { failures }, ProbeEvent::Ran { stdout, .. }) => {
            let id = active_window_id(stdout@);
            if id.len() > 0 {
                (X11State::Class { failures }, Request::Run(class_query(id)))
            } else {
                x11_retry(failures)
            }
        },
        (X11State::Class { failures }, ProbeEvent::Ran { stdout, .. }) => {
            match window_class(stdout@) {
                Some(class) => (X11State::Done, found(class_report(class))),
                None => x11_retry(failures),
            }
        },
        (X11State::Pausing { failures }, ProbeEvent::Paused) => (
            X11State::Root { failures },
            Request::Run(root_query()),
        ),
        (X11State::Root { .. }, ProbeEvent::SpawnFailed) => (
            X11State::Done,
            failed(ProbeErrorKind::ToolUnavailable),
        ),
        (X11State::Class { .. }, ProbeEvent::SpawnFailed) => (
            X11State::Done,
            failed(ProbeErrorKind::ToolUnavailable),
        ),
        _ => (X11State::Done, failed(ProbeErrorKind::UnexpectedEvent)),
    }
}

/// The requests the X11 probe makes from state `s` for the given outcomes, in turn.
pub open spec fn x11_run(s: X11State, events: Seq<ProbeEvent>) -> Seq<Request>
    decreases events.len(),
{
    if events.len() == 0 {
        Seq::empty()
    } else {
        let (next, req) = x11_next(s, events[0]);
        seq![req] + x11_run(next, events.drop_first())
    }
}

/// `n` attempts whose answer is `out`, each followed by the end of a pause.
pub open spec fn answered_rounds(out: ProbeEvent, n: nat) -> Seq<ProbeEvent>
    decreases n,
{
    if n == 0 {
        Seq::empty()
    } else {
        seq![out, ProbeEvent::Paused] + answered_rounds(out, (n - 1) as nat)
    }
}

/// `n` times a pause and a new root window query.
pub open spec fn retry_requests(n: nat) -> Seq<Request>
    decreases n,
{
    if n == 0 {
        Seq::empty()
    } else {
        seq![Request::Pause(PAUSE_MS), Request::Run(root_query())] + retry_requests((n - 1) as nat)
    }
}

proof fn lemma_x11_rounds(out: ProbeEvent, f: u32, n: nat)
    requires
        out matches ProbeEvent::Ran { stdout, .. } && active_window_id(stdout@).len() == 0,
        f + n == X11_MAX_ATTEMPTS - 1,
    ensures
        x11_run(X11State::Root { failures: f }, answered_rounds(out, n).push(out)) == retry_requests(
            n,
        ).push(found(Seq::empty())),
    decreases n,
{
    let events = answered_rounds(out, n).push(out);
    if n == 0 {
        assert(events =~= seq![out]);
        assert(x11_next(X11State::Root { failures: f }, out) == (X11State::Done, found(Seq::empty())));
        assert(x11_run(X11State::Done, events.drop_first()) =~= Seq::empty());
        assert(x11_run(X11State::Root { failures: f }, events) =~= seq![found(Seq::empty())]);
        assert(retry_requests(0).push(found(Seq::empty())) =~= seq![found(Seq::empty())]);
    } else {
        let rest = answered_rounds(out, (n - 1) as nat).push(out);
        assert(events =~= seq![out, ProbeEvent::Paused] + rest);
        assert(events.drop_first() =~= seq![ProbeEvent::Paused] + rest);
        assert(events.drop_first().drop_first() =~= rest);
        lemma_x11_rounds(out, (f + 1) as u32, (n - 1) as nat);
        let pausing = X11State::Pausing { failures: (f + 1) as u32 };
        assert(x11_next(X11State::Root { failures: f }, out) == (pausing, Request::Pause(PAUSE_MS)));
        assert(x11_next(pausing, ProbeEvent::Paused) == (
            X11State::Root { failures: (f + 1) as u32 },
            Request::Run(root_query()),
        ));
        assert(x11_run(pausing, events.drop_first()) == seq![Request::Run(root_query())] + x11_run(
            X11State::Root { failures: (f + 1) as u32 },
            rest,
        ));
        assert(x11_run(X11State::Root { failures: f }, events) == seq![Request::Pause(PAUSE_MS)]
            + x11_run(pausing, events.drop_first()));
        assert(retry_requests(n).push(found(Seq::empty())) =~= seq![
            Request::Pause(PAUSE_MS),
            Request::Run(root_query()),
        ] + retry_requests((n - 1) as nat).push(found(Seq::empty())));
    }
}

/// Where no answer of the X server names an active window, the probe asks
/// `X11_MAX_ATTEMPTS` times in all, pausing before each new attempt, and then
/// reports without an error that no application is active.
pub proof fn lemma_x11_gives_up(out: ProbeEvent)
    requires
        out matches ProbeEvent::Ran { stdout, .. } && active_window_id(stdout@).len() == 0,
    ensures
        x11_run(
            X11State::Root { failures: 0 },
            answered_rounds(out, (X11_MAX_ATTEMPTS - 1) as nat).push(out),
        ) == retry_requests((X11_MAX_ATTEMPTS - 1) as nat).push(found(Seq::empty())),
{
    lemma_x11_rounds(out, 0, (X11_MAX_ATTEMPTS - 1) as nat);
}

fn root_command() -> (r: Vec<String>)
    ensures
        r@.map_values(|a: String| a@) == root_query(),
{
    let r = vec!["xprop".to_string(), "-root".to_string(), "_NET_ACTIVE_WINDOW".to_string()];
    assert(r@.map_values(|a: String| a@) =~= root_query());
    r
}

fn class_command(id: Vec<char>) -> (r: Vec<String>)
    ensures
        r@.map_values(|a: String| a@) == class_query(id@),
{
    let window = string_of(&id);
    let r = vec!["xprop".to_string(), "-id".to_string(), window, "WM_CLASS".to_string()];
    assert(r@.map_values(|a: String| a@) =~= class_query(id@));
    r
}

/// The first state and request of the X11 probe.
pub fn x11_start() -> (r: (X11State, ProbeAction))
    ensures
        r.0 == (X11State::Root { failures: 0 }),
        r.1@ == Request::Run(root_query()),
{
    (X11State::Root { failures: 0 }, ProbeAction::Run(root_command()))
}

fn x11_retry_exec(failures: u32) -> (r: (X11State, ProbeAction))
    ensures
        (r.0, r.1@) == x11_retry(failures),
{
    if failures >= X11_MAX_ATTEMPTS - 1 {
        (X11State::Done, ProbeAction::Finish(Ok(String::new())))
    } else {
        (X11State::Pausing { failures: failures + 1 }, ProbeAction::Pause(PAUSE_MS))
    }
}

/// The id of the active window in the output of the root window query.
pub fn parse_active_window_id(out: &str) -> (r: Vec<char>)
    ensures
        r@ == active_window_id(out@),
{
    let text = chars_of(out);
    match line_with(&text, &chars_of("_NET_ACTIVE_WINDOW(WINDOW)")) {
        Some(line) => word(&line, 4),
        None => Vec::new(),
    }
}

/// The window class in the output of the class query.
pub fn parse_window_class(out: &str) -> (r: Option<String>)
    ensures
        match r {
            Some(c) => window_class(out@) == Some(c@),
            None => window_class(out@) is None,
        },
{
    let text = chars_of(out);
    match line_with(&text, &chars_of("WM_CLASS(STRING)")) {
        Some(line) => {
            let field = split_second(&line, &chars_of("\""));
            let class = string_of(&field);
            Some(class)
        },
        None => None,
    }
}

/// The next state and request of the X11 probe, given the outcome of the last request.
pub fn x11_step(s: X11State, e: ProbeEvent) -> (r: (X11State, ProbeAction))
    ensures
        (r.0, r.1@) == x11_next(s, e),
{
    match (s, e) {
        (X11State::Root { failures }, ProbeEvent::Ran { stdout, .. }) => {
            let id = parse_active_window_id(stdout.as_str());
            if id.len() > 0 {
                (X11State::Class { failures }, ProbeAction::Run(class_command(id)))
            } else {
                x11_retry_exec(failures)
            }
        },
        (X11State::Class { failures }, ProbeEvent::Ran { stdout, .. }) => {
            match parse_window_class(stdout.as_str()) {
                Some(class) => (X11State::Done, ProbeAction::Finish(Ok(classify(class.as_str())))),
                None => x11_retry_exec(failures),
            }
        },
        (X11State::Pausing { failures }, ProbeEvent::Paused) => (
            X11State::Root { failures },
            ProbeAction::Run(root_command()),
        ),
        (X11State::Root { .. }, ProbeEvent::SpawnFailed) => (
            X11State::Done,
            ProbeAction::Finish(Err(failure(ProbeErrorKind::ToolUnavailable))),
        ),
        (X11State::Class { .. }, ProbeEvent::SpawnFailed) => (
            X11State::Done,
            ProbeAction::Finish(Err(failure(ProbeErrorKind::ToolUnavailable))),
        ),
        _ => (X11State::Done, ProbeAction::Finish(Err(failure(ProbeErrorKind::UnexpectedEvent)))),
    }
}

} // verus!
