//! Points in time, held as whole numbers, and their text in a time zone.

use vstd::prelude::*;
use crate::fields::{whole_of, Record};
use crate::json::{Json, JsonModel};

verus! {

/// The first millisecond of the calendar: the start of the year -262143 in
/// UTC, counted from the start of 1970.
pub const FIRST_MILLIS: i64 = -8_334_601_228_800_000;

/// The last millisecond of the calendar: the end of the year 262142 in UTC,
/// counted from the start of 1970.
pub const LAST_MILLIS: i64 = 8_210_266_876_799_999;

/// Whether `millis` milliseconds after the start of 1970 in UTC fall on a
/// date of the calendar, which runs from the first day of the year -262143
/// to the last day of the year 262142.
pub open spec fn representable_millis(millis: i64) -> bool {
    FIRST_MILLIS <= millis <= LAST_MILLIS
}

/// Calls `chrono::DateTime::from_timestamp_millis` and says whether it gave
/// a point in time. It gives one exactly for the days that
/// `chrono::NaiveDate` holds, from the first of its least year to the last of
/// its greatest, which are the bounds of `representable_millis`.
#[verifier::external_body]
fn in_calendar(millis: i64) -> (r: bool)
    ensures
        r == representable_millis(millis),
{
    chrono::DateTime::from_timestamp_millis(millis).is_some()
}

/// The text of a point in time in a time zone, as `chrono` and `chrono_tz`
/// write it: `seconds` after the start of 1970 in UTC, seen in the zone that
/// `chrono_tz::Tz` knows under the name `zone`, written by the `strftime`
/// pattern `pattern`. `None` where the zone's name or the pattern is not
/// accepted, the point falls outside the calendar, or it cannot be written.
pub uninterp spec fn zoned_text(seconds: i64, zone: Seq<char>, pattern: Seq<char>) -> Option<
    Seq<char>,
>;

/// Parses the zone with `chrono_tz::Tz::from_str` and the pattern with
/// `chrono::format::StrftimeItems::parse`, makes the point in time with
/// `chrono::DateTime::from_timestamp`, and writes it in the zone with
/// `format_with_items` and `write_to`. The result is what `zoned_text` names.
#[verifier::external_body]
pub(crate) fn write_zoned(seconds: i64, zone: &str, pattern: &str) -> (r: Option<String>)
    ensures
        r.deep_view() == zoned_text(seconds, zone@, pattern@),
{
    let tz = zone.parse::<chrono_tz::Tz>().ok()?;
    let items = chrono::format::StrftimeItems::new(pattern).parse().ok()?;
    let instant = chrono::DateTime::from_timestamp(seconds, 0)?;
    let mut out = String::new();
    instant.with_timezone(&tz).format_with_items(items.iter()).write_to(&mut out).ok()?;
    Some(out)
}

/// A point in time: milliseconds since the start of 1970 in UTC, on a date
/// of the calendar.
#[derive(Clone, Copy, Debug, PartialEq, Eq)]
pub struct Instant {
    millis: i64,
}

impl Instant {
    /// Milliseconds since the start of 1970 in UTC.
    pub closed spec fn spec_millis(self) -> i64 {
        self.millis
    }

    /// Every point in time lies on a date of the calendar.
    #[verifier::type_invariant]
    spec fn on_the_calendar(self) -> bool {
        representable_millis(self.millis)
    }

    /// The point `millis` milliseconds after the start of 1970 in UTC;
    /// `None` where that is beyond the calendar.
    pub fn from_millis(millis: i64) -> (r: Option<Instant>)
        ensures
            r is Some <==> representable_millis(millis),
            r matches Some(t) ==> t.spec_millis() == millis,
    {
        if in_calendar(millis) {
            Some(Instant { millis })
        } else {
            None
        }
    }

    /// Milliseconds since the start of 1970 in UTC.
    pub fn millis(&self) -> (r: i64)
        ensures
            r == self.spec_millis(),
            representable_millis(r),
    {
        proof {
            use_type_invariant(self);
        }
        self.millis
    }
}

impl DeepView for Instant {
    type V = i64;

    open spec fn deep_view(&self) -> i64 {
        self.spec_millis()
    }
}

impl Record for Instant {
    /// A whole number of milliseconds that falls on a date of the calendar.
    open spec fn spec_from(j: JsonModel) -> Option<i64> {
        match whole_of(j) {
            Some(n) if i64::MIN <= n <= i64::MAX && representable_millis(n as i64) => Some(
                n as i64,
            ),
            _ => None,
        }
    }

    fn from_json(j: &Json) -> (r: Option<Instant>) {
        let out = match i64::from_json(j) {
            Some(millis) => Instant::from_millis(millis),
            None => None,
        };
        assert(out.deep_view() == Self::spec_from(j@));
        out
    }
}

} // verus!
