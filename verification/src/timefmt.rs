//! Display formatting of stored ISO-8601 timestamps.
//!
//! A stored timestamp is rendered down to minute precision for the admin
//! pages; a string that does not parse is passed through unchanged.

use vstd::prelude::*;

verus! {

/// What the calendar library renders an RFC 3339 timestamp to at minute
/// precision, or `None` where the string does not parse; a function of the
/// characters of the string alone.
pub uninterp spec fn rfc3339_minute_display(s: Seq<char>) -> Option<Seq<char>>;

/// Relies on chrono's `DateTime::parse_from_rfc3339` and `DateTime::format`
/// with the pattern `%Y-%m-%d %H:%M`: whether the string parses, and what
/// the rendering is, depend on the characters of the string alone.
#[verifier::external_body]
fn rfc3339_to_minute(s: &str) -> (r: Option<String>)
    ensures
        match r {
            Some(t) => rfc3339_minute_display(s@) == Some(t@),
            None => rfc3339_minute_display(s@) is None,
        },
{
    match chrono::DateTime::parse_from_rfc3339(s) {
        Ok(dt) => Some(dt.format("%Y-%m-%d %H:%M").to_string()),
        Err(_) => None,
    }
}

/// The displayed form of a stored timestamp: the minute rendering where it
/// parses as RFC 3339, the raw string unchanged where it does not.
pub open spec fn spec_timestamp_display(s: Seq<char>) -> Seq<char> {
    match rfc3339_minute_display(s) {
        Some(t) => t,
        None => s,
    }
}

/// Renders a stored timestamp for display, falling back to the raw string
/// when it does not parse.
pub fn format_timestamp(s: &str) -> (r: String)
    ensures
        r@ == spec_timestamp_display(s@),
{
    match rfc3339_to_minute(s) {
        Some(t) => t,
        None => s.to_owned(),
    }
}

} // verus!
