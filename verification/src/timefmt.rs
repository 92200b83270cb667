//! Labels that show when a capture was taken, and the file name a new
//! screenshot is saved under.

use vstd::prelude::*;
use crate::text::{push_decimal, decimal};

verus! {

/// The text that `chrono` makes of the UTC time `secs` seconds after the
/// Unix epoch with the `strftime`-style pattern `fmt`; `None` when the time
/// is outside the range chrono represents.
pub uninterp spec fn utc_timestamp_text(secs: int, fmt: Seq<char>) -> Option<Seq<char>>;

/// `chrono::DateTime::<Utc>::from_timestamp(secs, 0)`, formatted with
/// `fmt` when it exists. Claimed: the result is the named text of these
/// arguments, so equal arguments give equal text; nothing is claimed of
/// the text itself. Only the patterns this crate uses are admitted
/// (formatting with a malformed pattern panics).
#[verifier::external_body]
fn format_utc_timestamp(secs: i64, fmt: &str) -> (r: Option<String>)
    requires
        fmt@ == "%Y-%m-%d %H:%M:%S"@ || fmt@ == "%H:%M:%S"@ || fmt@ == "%Y"@ || fmt@ == "%m"@,
    ensures
        match r {
            Some(s) => utc_timestamp_text(secs as int, fmt@) == Some(s@),
            None => utc_timestamp_text(secs as int, fmt@) is None,
        },
{
    match chrono::DateTime::from_timestamp(secs, 0) {
        Some(dt) => Some(dt.format(fmt).to_string()),
        None => None,
    }
}

/// `a / b` rounded toward zero.
pub open spec fn trunc_div(a: int, b: int) -> int {
    if a >= 0 { a / b } else { -((-a) / b) }
}

/// The label of a formatted time: the text, or `fallback` when the time
/// could not be represented.
pub fn timestamp_label(formatted: Option<String>, fallback: &str) -> (r: String)
    ensures
        match formatted {
            Some(s) => r@ == s@,
            None => r@ == fallback@,
        },
{
    match formatted {
        Some(s) => s,
        None => {
            let mut r = String::new();
            r.append(fallback);
            r
        },
    }
}

/// Date and time of a capture (`YYYY-MM-DD HH:MM:SS`, UTC), or `Unknown`.
pub fn format_timestamp(ts_ms: i64) -> (r: String)
    ensures
        match utc_timestamp_text(trunc_div(ts_ms as int, 1000), "%Y-%m-%d %H:%M:%S"@) {
            Some(s) => r@ == s,
            None => r@ == "Unknown"@,
        },
{
    let secs = ts_ms / 1000;
    timestamp_label(format_utc_timestamp(secs, "%Y-%m-%d %H:%M:%S"), "Unknown")
}

/// Time of day of a capture (`HH:MM:SS`, UTC), or `??:??:??`.
pub fn format_time(ts_ms: i64) -> (r: String)
    ensures
        match utc_timestamp_text(trunc_div(ts_ms as int, 1000), "%H:%M:%S"@) {
            Some(s) => r@ == s,
            None => r@ == "??:??:??"@,
        },
{
    let secs = ts_ms / 1000;
    timestamp_label(format_utc_timestamp(secs, "%H:%M:%S"), "??:??:??")
}

/// File name of a screenshot saved at `timestamp_secs` (Unix seconds).
pub fn screenshot_file_name(timestamp_secs: u64) -> (r: String)
    ensures
        r@ == "screenshot_"@ + decimal(timestamp_secs as nat) + ".png"@,
{
    let mut s = String::new();
    s.append("screenshot_");
    push_decimal(&mut s, timestamp_secs);
    s.append(".png");
    s
}

/// The directories a capture taken at `secs` (Unix seconds, UTC) is filed
/// under in the captures folder: its year, then its month (`YYYY`, `MM`);
/// none when the time is outside what chrono represents.
pub fn capture_subdirectories(secs: i64) -> (r: Option<(String, String)>)
    ensures
        match r {
            Some(p) => utc_timestamp_text(secs as int, "%Y"@) == Some(p.0@)
                && utc_timestamp_text(secs as int, "%m"@) == Some(p.1@),
            None => utc_timestamp_text(secs as int, "%Y"@) is None || utc_timestamp_text(secs as int, "%m"@) is None,
        },
{
    let year = format_utc_timestamp(secs, "%Y");
    let month = format_utc_timestamp(secs, "%m");
    match (year, month) {
        (Some(y), Some(m)) => Some((y, m)),
        _ => None,
    }
}

} // verus!
