//! How long ago a moment was, in words.

use crate::hubapi::Timestamp;
use crate::text::{decimal_text, push_decimal};
use vstd::prelude::*;
use vstd::string::StringExecFns;

verus! {

/// The pattern that writes a date as year, month and day with hyphens
/// between them.
pub const DATE_PATTERN: &'static str = "%F";

/// The pattern that writes date, hour and minute, and the name of the time
/// zone.
pub const DATE_TIME_PATTERN: &'static str = "%F %R %Z";

/// What a moment looks like in UTC when it is written after `pattern`;
/// `None` for a moment outside the calendar.
pub uninterp spec fn moment_text(secs: i64, nanos: u32, pattern: Seq<char>) -> Option<Seq<char>>;

/// The calendar date of a moment in UTC; `None` for a moment outside the
/// calendar.
pub open spec fn calendar_date(secs: i64, nanos: u32) -> Option<Seq<char>> {
    moment_text(secs, nanos, DATE_PATTERN@)
}

/// `chrono::DateTime::from_timestamp` followed by `format`: the moment
/// written after `pattern`, where chrono can represent the moment at all.
/// The contract gives that text the name `moment_text`. Only the two
/// patterns of this module are let in, which chrono can always write.
#[verifier::external_body]
pub(crate) fn format_moment(secs: i64, nanos: u32, pattern: &str) -> (text: Option<String>)
    requires
        pattern@ == DATE_PATTERN@ || pattern@ == DATE_TIME_PATTERN@,
    ensures
        match text {
            Some(written) => moment_text(secs, nanos, pattern@) == Some(written@),
            None => moment_text(secs, nanos, pattern@) is None,
        },
{
    match chrono::DateTime::from_timestamp(secs, nanos) {
        Some(moment) => Some(moment.format(pattern).to_string()),
        None => None,
    }
}

/// `chrono::Utc::now` less the moment, in whole seconds as
/// `TimeDelta::num_seconds` counts them; `None` where `from_timestamp` cannot
/// represent the moment. The number depends on the clock, so the contract
/// says nothing of it.
#[verifier::external_body]
fn seconds_since(secs: i64, nanos: u32) -> (elapsed: Option<i64>) {
    match chrono::DateTime::from_timestamp(secs, nanos) {
        Some(moment) => Some((chrono::Utc::now() - moment).num_seconds()),
        None => None,
    }
}

/// What is shown for a moment that lies `elapsed` seconds back and falls on
/// `date`: under a minute and a half "just now"; then whole minutes up to
/// 120, whole hours up to 72, whole days up to 30, whole weeks up to 20; the
/// date for anything older.
pub open spec fn human_text(elapsed: int, date: Seq<char>) -> Seq<char> {
    if elapsed < 90 {
        "just now"@
    } else if elapsed / 60 <= 120 {
        decimal_text((elapsed / 60) as nat) + " minutes ago"@
    } else if elapsed / 3600 <= 72 {
        decimal_text((elapsed / 3600) as nat) + " hours ago"@
    } else if elapsed / 86400 <= 30 {
        decimal_text((elapsed / 86400) as nat) + " days ago"@
    } else if elapsed / 604800 <= 20 {
        decimal_text((elapsed / 604800) as nat) + " weeks ago"@
    } else {
        date
    }
}

/// The decimal notation of `count` followed by `unit`.
fn counted(count: u64, unit: &str) -> (text: String)
    ensures
        text@ == decimal_text(count as nat) + unit@,
{
    let mut text = String::new();
    push_decimal(&mut text, count);
    text.append(unit);
    assert(text@ =~= decimal_text(count as nat) + unit@);
    text
}

/// Describes a moment that lies `elapsed` seconds back and falls on `date`.
/// A moment in the future counts as "just now".
pub fn humanize(elapsed: i64, date: &str) -> (text: String)
    ensures
        text@ == human_text(elapsed as int, date@),
{
    if elapsed < 90 {
        return String::from_str("just now");
    }
    let seconds: u64 = elapsed as u64;
    if seconds / 60 <= 120 {
        counted(seconds / 60, " minutes ago")
    } else if seconds / 3600 <= 72 {
        counted(seconds / 3600, " hours ago")
    } else if seconds / 86400 <= 30 {
        counted(seconds / 86400, " days ago")
    } else if seconds / 604800 <= 20 {
        counted(seconds / 604800, " weeks ago")
    } else {
        String::from_str(date)
    }
}

/// Whether `text` describes some distance to a moment that falls on `date`.
pub open spec fn is_human_text(text: Seq<char>, date: Seq<char>) -> bool {
    exists|elapsed: i64| text == #[trigger] human_text(elapsed as int, date)
}

/// Whether `text` may be what is shown for `moment` at some time: some
/// distance to it, or nothing where the moment lies outside the calendar.
pub open spec fn is_distance(text: Seq<char>, moment: Timestamp) -> bool {
    match calendar_date(moment.secs, moment.nanos) {
        Some(date) => is_human_text(text, date),
        None => text == Seq::<char>::empty(),
    }
}

/// Moments that can say how long ago they were.
pub trait DurationExt {
    /// The distance from the moment to now, in words.
    fn to_human(&self) -> String;
}

impl DurationExt for Timestamp {
    /// Reads the clock and describes the distance. Whatever the clock says,
    /// the text is `human_text` of some number of seconds and of the
    /// moment's date; a moment outside the calendar gives the empty text.
    fn to_human(&self) -> (text: String)
        ensures
            is_distance(text@, *self),
    {
        match format_moment(self.secs, self.nanos, DATE_PATTERN) {
            Some(date) => {
                let elapsed: i64 = match seconds_since(self.secs, self.nanos) {
                    Some(elapsed) => elapsed,
                    None => i64::MAX,
                };
                let text = humanize(elapsed, date.as_str());
                assert(text@ == human_text(elapsed as int, date@));
                text
            },
            None => String::new(),
        }
    }
}

} // verus!
