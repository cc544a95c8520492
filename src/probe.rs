//! What the window probes ask their caller to do, what the caller reports back,
//! and how a probe fails.
//!
//! A probe is a state machine: given its state and the outcome of the last
//! request, it returns its next state and the next request. The caller runs
//! the commands, sleeps, and handles the script file; the probe decides.

use vstd::prelude::*;

use crate::classify::{lower_of, title_of, WindowTitle};

verus! {

/// How a probe failed.
#[derive(PartialEq, Eq, Structural, Clone, Copy, Debug)]
pub enum ProbeErrorKind {
    /// A command could not be started, or its output could not be read.
    ToolUnavailable,
    /// None of the D-Bus control tools answered its version check.
    NoControlTool,
    /// The script file could not be written.
    ScriptWriteFailed,
    /// The compositor did not load the script.
    ScriptLoadFailed,
    /// Loading the script produced no script number.
    NoScriptId,
    /// The compositor did not run the script.
    ScriptRunFailed,
    /// The system log could not be read.
    LogQueryFailed,
    /// The script itself reported an error.
    ScriptReported,
    /// An outcome arrived that does not answer the pending request.
    UnexpectedEvent,
}

/// A failed probe: the kind of failure and the text that explains it (the
/// tool's error output or the script's message; often empty).
#[derive(Clone, Debug)]
pub struct ProbeError {
    pub kind: ProbeErrorKind,
    pub detail: String,
}

/// What a probe asks its caller to do next.
#[derive(Debug)]
pub enum ProbeAction {
    /// Run a program (the first word) with the arguments that follow, and report
    /// its exit status and output.
    Run(Vec<String>),
    /// Sleep for the given number of milliseconds.
    Pause(u64),
    /// Write `KWIN_SCRIPT` to the script file.
    WriteScript,
    /// Report the current time in seconds since the Unix epoch.
    ReadClock,
    /// Remove the script file.
    RemoveScript,
    /// The probe is over: the canonical application name (empty where no known
    /// application is active) or the failure.
    Finish(Result<String, ProbeError>),
}

/// What the caller reports after doing what a probe asked.
#[derive(Debug)]
pub enum ProbeEvent {
    /// The program ran to its end.
    Ran { success: bool, stdout: String, stderr: String },
    /// The program could not be started, or its output could not be read.
    SpawnFailed,
    /// The pause is over.
    Paused,
    /// The script file was written (`true`) or could not be (`false`).
    ScriptWritten(bool),
    /// The current time, in seconds since the Unix epoch.
    Clock(u64),
    /// The script file was removed, or removing it was attempted.
    ScriptRemoved,
}

/// A request as a mathematical value.
pub enum Request {
    Run(Seq<Seq<char>>),
    Pause(u64),
    WriteScript,
    ReadClock,
    RemoveScript,
    Finish(Result<Seq<char>, (ProbeErrorKind, Seq<char>)>),
}

impl View for ProbeError {
    type V = (ProbeErrorKind, Seq<char>);

    open spec fn view(&self) -> (ProbeErrorKind, Seq<char>) {
        (self.kind, self.detail@)
    }
}

/// The outcome of a probe as a mathematical value.
pub open spec fn outcome_view(r: Result<String, ProbeError>) -> Result<
    Seq<char>,
    (ProbeErrorKind, Seq<char>),
> {
    match r {
        Ok(s) => Ok(s@),
        Err(e) => Err(e@),
    }
}

/// The words of a command line as mathematical values.
pub open spec fn words_view(v: Seq<String>) -> Seq<Seq<char>> {
    v.map_values(|a: String| a@)
}

impl View for ProbeAction {
    type V = Request;

    open spec fn view(&self) -> Request {
        match self {
            ProbeAction::Run(v) => Request::Run(words_view(v@)),
            ProbeAction::Pause(ms) => Request::Pause(*ms),
            ProbeAction::WriteScript => Request::WriteScript,
            ProbeAction::ReadClock => Request::ReadClock,
            ProbeAction::RemoveScript => Request::RemoveScript,
            ProbeAction::Finish(r) => Request::Finish(outcome_view(*r)),
        }
    }
}

/// The delay between two attempts, and before the system log is read.
pub const PAUSE_MS: u64 = 200;

/// What a probe reports for a raw window class: the canonical name of the
/// application, or empty where the class belongs to no known application.
pub open spec fn observed_name(w: WindowTitle) -> Seq<char> {
    if w == WindowTitle::Unknown {
        Seq::empty()
    } else {
        w.spec_name()
    }
}

/// What a probe reports for a raw window class.
pub open spec fn class_report(class: Seq<char>) -> Seq<char> {
    observed_name(title_of(lower_of(class)))
}

/// The canonical name of the application that owns windows of class `raw`, or
/// an empty string where no known application does.
pub fn classify(raw: &str) -> (r: String)
    ensures
        r@ == class_report(raw@),
{
    let w = WindowTitle::from_string(raw);
    if w == WindowTitle::Unknown {
        String::new()
    } else {
        w.name().to_string()
    }
}

/// A failure with no explanatory text.
pub fn failure(kind: ProbeErrorKind) -> (r: ProbeError)
    ensures
        r@ == (kind, Seq::<char>::empty()),
{
    ProbeError { kind, detail: String::new() }
}

/// A finished probe that failed with no explanatory text.
pub open spec fn failed(kind: ProbeErrorKind) -> Request {
    Request::Finish(Err((kind, Seq::empty())))
}

/// A finished probe that found the given name.
pub open spec fn found(name: Seq<char>) -> Request {
    Request::Finish(Ok(name))
}

} // verus!
