//! What the reporter sends: which shape of payload, whether to send at all,
//! and the fixed request headers.

use vstd::prelude::*;

use crate::text::str_eq;

verus! {

/// The `User-Agent` header of every report.
pub const USER_AGENT: &'static str = "Mozilla/5.0 (Macintosh; Intel Mac OS X 10_15_7) AppleWebKit/537.36 (KHTML, like Gecko) Chrome/112.0.0.0 Safari/537.36 uacq";

/// The `Content-Type` header of every report.
pub const CONTENT_TYPE: &'static str = "application/json";

/// The fields a report payload carries besides the timestamp and commentary.
#[derive(PartialEq, Eq, Structural, Clone, Copy, Debug)]
pub enum PayloadShape {
    /// `process_name` alone: no media is playing.
    ProcessOnly,
    /// `process` together with a `media` object of title, artist and thumbnail.
    WithMedia,
}

/// The payload carries media unless the media title is the placeholder `None`.
pub open spec fn shape_of(media_title: Seq<char>) -> PayloadShape {
    if media_title == "None"@ {
        PayloadShape::ProcessOnly
    } else {
        PayloadShape::WithMedia
    }
}

/// The shape of the payload for a report with the given media title.
pub fn payload_shape(media_title: &str) -> (r: PayloadShape)
    ensures
        r == shape_of(media_title@),
{
    if str_eq(media_title, "None") {
        PayloadShape::ProcessOnly
    } else {
        PayloadShape::WithMedia
    }
}

/// A report is sent to the endpoint unless the application is the placeholder `None`.
pub fn should_send(process_name: &str) -> (r: bool)
    ensures
        r == (process_name@ != "None"@),
{
    !str_eq(process_name, "None")
}

} // verus!
