//! What the status overlay shows, and the text it shows it in. Times are
//! milliseconds since the Unix epoch.

use vstd::prelude::*;

use crate::text::{chars_of, decimal, joined, push_decimal, slice, str_eq, string_of};

verus! {

broadcast use vstd::string::group_string_axioms;

/// How the last attempt to find the active window went.
#[derive(Clone, Debug)]
pub enum WindowStatus {
    Success,
    Failed(String),
    Checking,
}

/// Counts of the checks made since the program started.
#[derive(PartialEq, Eq, Structural, Clone, Copy, Debug)]
pub struct RunningStats {
    pub start_ms: i64,
    pub success_count: u64,
    pub failure_count: u64,
    pub total_checks: u64,
}

/// Everything the overlay shows.
#[derive(Clone, Debug)]
pub struct AppStatus {
    pub session_type: String,
    pub current_window: String,
    pub window_status: WindowStatus,
    pub next_check_ms: i64,
    /// Seconds between two checks.
    pub watch_interval: i64,
    pub media_title: String,
    pub media_artist: String,
    pub media_thumbnail: String,
    pub stats: RunningStats,
    pub last_error: Option<String>,
}

impl AppStatus {
    /// The status shown before the first check, at `now_ms`.
    pub fn starting(now_ms: i64) -> (r: AppStatus)
        ensures
            r.session_type@ == "检测中..."@,
            r.current_window@ == "无"@,
            r.window_status is Checking,
            r.next_check_ms == now_ms,
            r.watch_interval == 5,
            r.media_title@ == Seq::<char>::empty(),
            r.media_artist@ == Seq::<char>::empty(),
            r.media_thumbnail@ == Seq::<char>::empty(),
            r.stats == (RunningStats {
                start_ms: now_ms,
                success_count: 0,
                failure_count: 0,
                total_checks: 0,
            }),
            r.last_error is None,
    {
        AppStatus {
            session_type: "检测中...".to_string(),
            current_window: "无".to_string(),
            window_status: WindowStatus::Checking,
            next_check_ms: now_ms,
            watch_interval: 5,
            media_title: String::new(),
            media_artist: String::new(),
            media_thumbnail: String::new(),
            stats: RunningStats { start_ms: now_ms, success_count: 0, failure_count: 0, total_checks: 0 },
            last_error: None,
        }
    }
}

impl WindowStatus {
    pub open spec fn spec_emoji(&self) -> Seq<char> {
        match self {
            WindowStatus::Success => "✅"@,
            WindowStatus::Failed(_) => "❌"@,
            WindowStatus::Checking => "🔍"@,
        }
    }

    /// The sign shown beside the status.
    pub fn emoji(&self) -> (r: &'static str)
        ensures
            r@ == self.spec_emoji(),
    {
        match self {
            WindowStatus::Success => "✅",
            WindowStatus::Failed(_) => "❌",
            WindowStatus::Checking => "🔍",
        }
    }
}

pub open spec fn session_letter(session: Seq<char>) -> Seq<char> {
    if session == "wayland"@ {
        "W"@
    } else if session == "x11"@ {
        "X"@
    } else {
        "?"@
    }
}

/// The letter shown beside the session type.
pub fn session_emoji(session: &str) -> (r: &'static str)
    ensures
        r@ == session_letter(session@),
{
    if str_eq(session, "wayland") {
        "W"
    } else if str_eq(session, "x11") {
        "X"
    } else {
        "?"
    }
}

/// A duration in seconds as the overlay writes it: seconds under a minute,
/// minutes and seconds under an hour, hours and minutes beyond.
pub open spec fn duration_text(secs: u64) -> Seq<char> {
    if secs < 60 {
        decimal(secs as nat) + "秒"@
    } else if secs < 3600 {
        decimal((secs / 60) as nat) + "分"@ + decimal((secs % 60) as nat) + "秒"@
    } else {
        decimal((secs / 3600) as nat) + "时"@ + decimal(((secs % 3600) / 60) as nat) + "分"@
    }
}

fn append(s: &mut String, t: &str)
    ensures
        final(s)@ == old(s)@ + t@,
{
    *s = joined(s.as_str(), t);
}

/// A duration in seconds as the overlay writes it.
pub fn format_duration(secs: u64) -> (r: String)
    ensures
        r@ == duration_text(secs),
{
    let mut r = String::new();
    if secs < 60 {
        push_decimal(&mut r, secs);
        append(&mut r, "秒");
    } else if secs < 3600 {
        push_decimal(&mut r, secs / 60);
        append(&mut r, "分");
        push_decimal(&mut r, secs % 60);
        append(&mut r, "秒");
    } else {
        push_decimal(&mut r, secs / 3600);
        append(&mut r, "时");
        push_decimal(&mut r, (secs % 3600) / 60);
        append(&mut r, "分");
    }
    assert(r@ =~= duration_text(secs));
    r
}

/// Whole seconds until the next check, and none once it is due.
pub open spec fn seconds_until(next_ms: i64, now_ms: i64) -> int {
    if next_ms - now_ms <= 0 {
        0
    } else {
        (next_ms - now_ms) / 1000
    }
}

/// Whole seconds until the next check, and none once it is due.
pub fn time_until_next_check(next_ms: i64, now_ms: i64) -> (r: i64)
    ensures
        r == seconds_until(next_ms, now_ms),
{
    let diff: i128 = next_ms as i128 - now_ms as i128;
    if diff <= 0 {
        0
    } else {
        (diff / 1000) as i64
    }
}

/// A text cut to `keep` characters and an ellipsis where it has more than `limit`.
pub open spec fn shortened(s: Seq<char>, limit: nat, keep: nat) -> Seq<char> {
    if s.len() > limit {
        s.subrange(0, keep as int) + "..."@
    } else {
        s
    }
}

/// A text cut to `keep` characters and an ellipsis where it has more than `limit`.
pub fn shorten(s: &str, limit: usize, keep: usize) -> (r: String)
    requires
        keep <= limit,
    ensures
        r@ == shortened(s@, limit as nat, keep as nat),
{
    let chars = chars_of(s);
    if chars.len() > limit {
        let head = string_of(&slice(&chars, 0, keep));
        joined(head.as_str(), "...")
    } else {
        s.to_string()
    }
}

/// The name of the active window as the overlay shows it: `无` where there is
/// none, and cut to fifteen characters where it is longer than eighteen.
pub fn window_label(name: &str) -> (r: String)
    ensures
        r@ == if name@.len() == 0 {
            "无"@
        } else {
            shortened(name@, 18, 15)
        },
{
    if chars_of(name).len() == 0 {
        "无".to_string()
    } else {
        shorten(name, 18, 15)
    }
}

/// A media title or artist as the overlay shows it: cut to nineteen characters
/// where it is longer than twenty-two.
pub fn media_label(text: &str) -> (r: String)
    ensures
        r@ == shortened(text@, 22, 19),
{
    shorten(text, 22, 19)
}

} // verus!
