//! The reporting cycle: from the application and media just observed, decide
//! whether to report, and what the loop remembers for the next cycle.

use vstd::prelude::*;

use crate::classify::lower_of;
use crate::enrich::{extend_text, get_extend_info};
use crate::probe::ProbeError;
use crate::text::str_eq;

verus! {

/// A report is sent at least this often, in whole seconds, even when nothing changed.
pub const HEARTBEAT_SECS: i64 = 20;

/// What a media player reports as playing; each part is `None` where unknown.
#[derive(Debug)]
pub struct MediaMetadata {
    pub title: Option<String>,
    pub artist: Option<String>,
    pub thumbnail: Option<String>,
}

/// A media snapshot as a mathematical value.
pub struct MediaView {
    pub title: Option<Seq<char>>,
    pub artist: Option<Seq<char>>,
    pub thumbnail: Option<Seq<char>>,
}

pub open spec fn opt_view(o: Option<String>) -> Option<Seq<char>> {
    match o {
        Some(s) => Some(s@),
        None => None,
    }
}

/// The text of an optional part, empty where it is absent.
pub open spec fn text_or_empty(o: Option<Seq<char>>) -> Seq<char> {
    match o {
        Some(s) => s,
        None => Seq::empty(),
    }
}

impl View for MediaMetadata {
    type V = MediaView;

    open spec fn view(&self) -> MediaView {
        MediaView {
            title: opt_view(self.title),
            artist: opt_view(self.artist),
            thumbnail: opt_view(self.thumbnail),
        }
    }
}

impl MediaMetadata {
    /// Nothing known to be playing.
    pub fn empty() -> (r: MediaMetadata)
        ensures
            r@ == (MediaView { title: None, artist: None, thumbnail: None }),
    {
        MediaMetadata { title: None, artist: None, thumbnail: None }
    }
}

/// What the loop remembers between cycles: the application and media of the
/// last report, and when it was made (milliseconds since the Unix epoch).
#[derive(Debug)]
pub struct LoopState {
    pub previous_process: String,
    pub previous_media: MediaMetadata,
    pub last_report_ms: i64,
}

/// The loop's memory as a mathematical value.
pub struct LoopView {
    pub process: Seq<char>,
    pub media: MediaView,
    pub last_report_ms: i64,
}

impl View for LoopState {
    type V = LoopView;

    open spec fn view(&self) -> LoopView {
        LoopView {
            process: self.previous_process@,
            media: self.previous_media@,
            last_report_ms: self.last_report_ms,
        }
    }
}

/// What is handed to the reporter: the application (empty where none is known),
/// the media title, artist and thumbnail (empty where unknown), and the commentary.
#[derive(Debug)]
pub struct Report {
    pub process_name: String,
    pub media_title: String,
    pub media_artist: String,
    pub media_thumbnail: String,
    pub extend: String,
}

/// A report as a mathematical value.
pub struct ReportView {
    pub process_name: Seq<char>,
    pub media_title: Seq<char>,
    pub media_artist: Seq<char>,
    pub media_thumbnail: Seq<char>,
    pub extend: Seq<char>,
}

impl View for Report {
    type V = ReportView;

    open spec fn view(&self) -> ReportView {
        ReportView {
            process_name: self.process_name@,
            media_title: self.media_title@,
            media_artist: self.media_artist@,
            media_thumbnail: self.media_thumbnail@,
            extend: self.extend@,
        }
    }
}

/// What one cycle comes to.
#[derive(Debug)]
pub enum CycleOutcome {
    /// Something changed, or the heartbeat is due: hand this to the reporter.
    Report(Report),
    /// Nothing to report.
    Unchanged,
    /// The active window could not be found; the cycle is dropped.
    Abandoned(ProbeError),
}

/// More than `HEARTBEAT_SECS` whole seconds have passed since the last report.
pub open spec fn heartbeat_due(last_ms: i64, now_ms: i64) -> bool {
    (now_ms - last_ms) / 1000 > HEARTBEAT_SECS
}

/// A cycle that observes `process` and `media` at `now_ms` reports.
pub open spec fn report_due(s: LoopView, process: Seq<char>, media: MediaView, now_ms: i64) -> bool {
    s.process != process || s.media != media || heartbeat_due(s.last_report_ms, now_ms)
}

/// The report for an application and a media snapshot.
pub open spec fn report_of(process: Seq<char>, media: MediaView) -> ReportView {
    ReportView {
        process_name: process,
        media_title: text_or_empty(media.title),
        media_artist: text_or_empty(media.artist),
        media_thumbnail: text_or_empty(media.thumbnail),
        extend: extend_text(lower_of(process)),
    }
}

/// The loop's next memory, and the report (if any), after a cycle that observed
/// `process` and `media` at `now_ms`.
pub open spec fn cycle_next(s: LoopView, process: Seq<char>, media: MediaView, now_ms: i64) -> (
    LoopView,
    Option<ReportView>,
) {
    if report_due(s, process, media, now_ms) {
        (
            LoopView { process, media, last_report_ms: now_ms },
            Some(report_of(process, media)),
        )
    } else {
        (s, None)
    }
}

/// With the application and media of the last report observed again, a cycle
/// reports nothing and changes nothing while at most `HEARTBEAT_SECS` whole
/// seconds have passed since that report. Once more have, the cycle reports
/// them once and restarts the count from its own time, so that a cycle that
/// follows within the threshold again reports nothing.
pub proof fn lemma_heartbeat(s: LoopView, now_ms: i64, later_ms: i64)
    ensures
        !heartbeat_due(s.last_report_ms, now_ms) ==> cycle_next(s, s.process, s.media, now_ms) == (
            s,
            None::<ReportView>,
        ),
        heartbeat_due(s.last_report_ms, now_ms) ==> ({
            let (next, report) = cycle_next(s, s.process, s.media, now_ms);
            &&& report == Some(report_of(s.process, s.media))
            &&& next == LoopView { process: s.process, media: s.media, last_report_ms: now_ms }
            &&& !heartbeat_due(now_ms, later_ms) ==> cycle_next(
                next,
                s.process,
                s.media,
                later_ms,
            ).1 is None
        }),
{
}

/// A cycle in which only the media changed reports.
pub proof fn lemma_media_change_reports(s: LoopView, media: MediaView, now_ms: i64)
    requires
        media != s.media,
    ensures
        cycle_next(s, s.process, media, now_ms).1 == Some(report_of(s.process, media)),
{
}

impl LoopState {
    /// The memory of a loop that starts at `now_ms`: nothing reported yet.
    pub fn new(now_ms: i64) -> (r: LoopState)
        ensures
            r@ == (LoopView {
                process: Seq::empty(),
                media: MediaView { title: None, artist: None, thumbnail: None },
                last_report_ms: now_ms,
            }),
    {
        LoopState {
            previous_process: String::new(),
            previous_media: MediaMetadata::empty(),
            last_report_ms: now_ms,
        }
    }
}

fn same_text(a: &Option<String>, b: &Option<String>) -> (r: bool)
    ensures
        r == (opt_view(*a) == opt_view(*b)),
{
    match (a, b) {
        (Some(x), Some(y)) => str_eq(x.as_str(), y.as_str()),
        (None, None) => true,
        _ => false,
    }
}

/// Whether two media snapshots are the same.
pub fn same_media(a: &MediaMetadata, b: &MediaMetadata) -> (r: bool)
    ensures
        r == (a@ == b@),
{
    same_text(&a.title, &b.title) && same_text(&a.artist, &b.artist) && same_text(
        &a.thumbnail,
        &b.thumbnail,
    )
}

fn text_of(o: &Option<String>) -> (r: String)
    ensures
        r@ == text_or_empty(opt_view(*o)),
{
    match o {
        Some(s) => s.clone(),
        None => String::new(),
    }
}

/// Whether more than `HEARTBEAT_SECS` whole seconds have passed since `last_ms`.
pub fn is_heartbeat_due(last_ms: i64, now_ms: i64) -> (r: bool)
    ensures
        r == heartbeat_due(last_ms, now_ms),
{
    let elapsed: i128 = now_ms as i128 - last_ms as i128;
    assert(((elapsed as int) / 1000 > 20) == (elapsed >= 21000));
    elapsed >= 1000 * (HEARTBEAT_SECS as i128 + 1)
}

/// One cycle of the loop: given what the probe found at `now_ms` and the media
/// snapshot, report if the application or the media changed or the heartbeat is
/// due, and then remember what was reported. A failed probe drops the cycle.
pub fn run_cycle(
    state: &mut LoopState,
    observation: Result<String, ProbeError>,
    media: MediaMetadata,
    now_ms: i64,
) -> (r: CycleOutcome)
    ensures
        match observation {
            Err(e) => r matches CycleOutcome::Abandoned(f) && f@ == e@ && final(state)@ == old(
                state,
            )@,
            Ok(process) => {
                let (next, report) = cycle_next(old(state)@, process@, media@, now_ms);
                &&& final(state)@ == next
                &&& match report {
                    Some(v) => r matches CycleOutcome::Report(rep) && rep@ == v,
                    None => r is Unchanged,
                }
            },
        },
{
    let process = match observation {
        Err(e) => {
            return CycleOutcome::Abandoned(e);
        },
        Ok(p) => p,
    };
    let changed = !str_eq(state.previous_process.as_str(), process.as_str()) || !same_media(
        &state.previous_media,
        &media,
    );
    if changed || is_heartbeat_due(state.last_report_ms, now_ms) {
        let report = Report {
            extend: get_extend_info(process.as_str()),
            process_name: process.clone(),
            media_title: text_of(&media.title),
            media_artist: text_of(&media.artist),
            media_thumbnail: text_of(&media.thumbnail),
        };
        state.previous_process = process;
        state.previous_media = media;
        state.last_report_ms = now_ms;
        CycleOutcome::Report(report)
    } else {
        CycleOutcome::Unchanged
    }
}

} // verus!
