//! The option-expiration resolver.  Expirations are known downstream as
//! Unix epoch-second timestamps; callers see them as `YYYY-MM-DD` date
//! strings.  This module performs the two conversions: a timestamp is
//! rendered as a date string for listing, and a caller-supplied date is
//! parsed strictly and converted to a midnight-UTC timestamp for selection.
//! The expiration matching itself is delegated downstream; a call with no
//! date leaves the selection to the fetch client.

use vstd::prelude::*;
use crate::error::TickerError;

verus! {

/// The `YYYY-MM-DD` rendering of a timestamp, a function of the timestamp
/// alone.
pub uninterp spec fn date_string_of(ts: i64) -> Seq<char>;

/// The midnight-UTC epoch-second timestamp of a date text, or nothing when
/// the text is not a strict `YYYY-MM-DD` date; a function of the text
/// alone.
pub uninterp spec fn midnight_timestamp_of(s: Seq<char>) -> Option<i64>;

/// Relies on `chrono::DateTime::<Utc>::from_timestamp` and chrono's
/// `%Y-%m-%d` formatting: the rendered date depends on the timestamp alone
/// (a timestamp chrono cannot represent renders as the empty default).
#[verifier::external_body]
fn render_date(ts: i64) -> (r: String)
    ensures
        r@ == date_string_of(ts),
{
    match chrono::DateTime::from_timestamp(ts, 0) {
        Some(dt) => dt.format("%Y-%m-%d").to_string(),
        None => String::new(),
    }
}

/// Relies on `chrono::NaiveDate::parse_from_str` with the `%Y-%m-%d`
/// format, and on chrono's midnight-UTC epoch conversion: whether a text
/// parses, and the timestamp it yields, depend on the text alone.
#[verifier::external_body]
fn parse_midnight_timestamp(s: &str) -> (r: Option<i64>)
    ensures
        r == midnight_timestamp_of(s@),
{
    match chrono::NaiveDate::parse_from_str(s, "%Y-%m-%d") {
        Ok(d) => match d.and_hms_opt(0, 0, 0) {
            Some(dt) => Some(dt.and_utc().timestamp()),
            None => None,
        },
        Err(_) => None,
    }
}

/// Render a list of expiration timestamps as date strings, one per
/// timestamp, in the order the fetch client returned them; no sort is
/// applied here.
pub fn format_expirations(timestamps: &Vec<i64>) -> (r: Vec<String>)
    ensures
        r@.len() == timestamps@.len(),
        forall|i: int|
            0 <= i < r@.len() ==> r.deep_view()[i] == date_string_of(timestamps@[i]),
{
    let mut r: Vec<String> = Vec::new();
    let mut idx: usize = 0;
    while idx < timestamps.len()
        invariant
            idx <= timestamps@.len(),
            r@.len() == idx,
            forall|i: int| 0 <= i < idx ==> (#[trigger] r@[i])@ == date_string_of(timestamps@[i]),
        decreases timestamps@.len() - idx,
    {
        let rendered = render_date(timestamps[idx]);
        r.push(rendered);
        idx = idx + 1;
    }
    proof {
        assert forall|i: int| 0 <= i < r@.len() implies r.deep_view()[i] == date_string_of(
            timestamps@[i],
        ) by {
            assert(r.deep_view()[i] == r@[i]@);
        }
    }
    r
}

/// Resolve the caller's expiration choice before the fetch: no date leaves
/// the selection to the fetch client; a date is parsed strictly as
/// `YYYY-MM-DD` and converted to its midnight-UTC timestamp; a text that is
/// no such date is a fatal input error carrying the offending text, and no
/// fetch may be issued.
pub fn resolve_expiration(date: Option<&str>) -> (r: Result<Option<i64>, TickerError>)
    ensures
        match date {
            None => r matches Ok(sel) && sel is None,
            Some(d) => match midnight_timestamp_of(d@) {
                Some(ts) => r matches Ok(sel) && sel == Some(ts),
                None => r matches Err(e) && e matches TickerError::InputFormat(m) && m@ == d@,
            },
        },
{
    match date {
        None => Ok(None),
        Some(d) => match parse_midnight_timestamp(d) {
            Some(ts) => Ok(Some(ts)),
            None => Err(TickerError::InputFormat(d.to_owned())),
        },
    }
}

} // verus!
