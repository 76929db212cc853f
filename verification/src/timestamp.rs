//! A UTC timestamp with millisecond precision, the snowflake-epoch
//! conversion, and RFC 3339 rendering.

use vstd::prelude::*;
use vstd::string::StringExecFns;
use crate::digits::{dec_digits, digit_char, pad2, pad3, pad4, four_digits, three_digits,
    two_digits, u64_to_string};

verus! {

/// Milliseconds between the unix epoch and the platform's snowflake epoch
/// (2015-01-01T00:00:00Z).
pub const DISCORD_EPOCH: u64 = 1_420_070_400_000;

/// The largest supported timestamp, 9999-12-31T23:59:59.999Z, in milliseconds
/// since the unix epoch.
pub const TIMESTAMP_MAX_MILLIS: u64 = 253_402_300_799_999;

/// The number of whole days between 1970-01-01 and 9999-12-31.
pub const DAYS_MAX: u64 = 2_932_896;

/// Whether `y` is a leap year in the Gregorian calendar.
pub open spec fn is_leap(y: int) -> bool {
    (y % 4 == 0 && y % 100 != 0) || y % 400 == 0
}

/// The number of days of year `y`.
pub open spec fn days_in_year(y: int) -> int {
    if is_leap(y) {
        366
    } else {
        365
    }
}

/// The number of days of month `m` (1-based) of year `y`.
pub open spec fn days_in_month(y: int, m: int) -> int {
    if m == 1 {
        31
    } else if m == 2 {
        if is_leap(y) {
            29
        } else {
            28
        }
    } else if m == 3 {
        31
    } else if m == 4 {
        30
    } else if m == 5 {
        31
    } else if m == 6 {
        30
    } else if m == 7 {
        31
    } else if m == 8 {
        31
    } else if m == 9 {
        30
    } else if m == 10 {
        31
    } else if m == 11 {
        30
    } else {
        31
    }
}

/// Walks forward from year `y`, consuming whole years from a day count, and
/// returns the final year together with the remaining day of year (0-based).
pub open spec fn year_split(days: int, y: int) -> (int, int)
    decreases days,
{
    if days < days_in_year(y) {
        (y, days)
    } else {
        year_split(days - days_in_year(y), y + 1)
    }
}

/// Walks forward from month `m` of year `y`, consuming whole months from a
/// day-of-year count, and returns the final month together with the remaining
/// day of month (0-based).
pub open spec fn month_split(doy: int, y: int, m: int) -> (int, int)
    decreases 12 - m,
{
    if m >= 12 || doy < days_in_month(y, m) {
        (m, doy)
    } else {
        month_split(doy - days_in_month(y, m), y, m + 1)
    }
}

/// The RFC 3339 rendering (`YYYY-MM-DDThh:mm:ss.mmmZ`) of a count of
/// milliseconds since the unix epoch.
pub open spec fn rfc3339(ms: int) -> Seq<char> {
    let secs = ms / 1000;
    let days = secs / 86400;
    let sod = secs % 86400;
    let y_doy = year_split(days, 1970);
    let m_dom = month_split(y_doy.1, y_doy.0, 1);
    pad4(y_doy.0) + seq!['-'] + pad2(m_dom.0) + seq!['-'] + pad2(m_dom.1 + 1) + seq!['T']
        + pad2(sod / 3600) + seq![':'] + pad2((sod % 3600) / 60) + seq![':'] + pad2(sod % 60)
        + seq!['.'] + pad3(ms % 1000) + seq!['Z']
}

/// Whether `y` is a leap year.
pub fn is_leap_year(y: u64) -> (r: bool)
    ensures
        r == is_leap(y as int),
{
    (y % 4 == 0 && y % 100 != 0) || y % 400 == 0
}

/// The number of days of year `y`.
fn days_in_year_exec(y: u64) -> (r: u64)
    ensures
        r == days_in_year(y as int),
{
    if is_leap_year(y) {
        366
    } else {
        365
    }
}

/// The number of days of month `m` (1-based) of year `y`.
fn days_in_month_exec(y: u64, m: u64) -> (r: u64)
    ensures
        r == days_in_month(y as int, m as int),
{
    if m == 1 {
        31
    } else if m == 2 {
        if is_leap_year(y) {
            29
        } else {
            28
        }
    } else if m == 3 {
        31
    } else if m == 4 {
        30
    } else if m == 5 {
        31
    } else if m == 6 {
        30
    } else if m == 7 {
        31
    } else if m == 8 {
        31
    } else if m == 9 {
        30
    } else if m == 10 {
        31
    } else if m == 11 {
        30
    } else {
        31
    }
}

/// Converts a count of days since 1970-01-01 into a Gregorian calendar date
/// `(year, month, day)`, months and days 1-based.
pub fn civil_from_days(days: u64) -> (r: (u64, u64, u64))
    requires
        days <= DAYS_MAX,
    ensures
        ({
            let y_doy = year_split(days as int, 1970);
            let m_dom = month_split(y_doy.1, y_doy.0, 1);
            r.0 == y_doy.0 && r.1 == m_dom.0 && r.2 == m_dom.1 + 1
        }),
{
    let mut y: u64 = 1970;
    let mut rem: u64 = days;
    while rem >= days_in_year_exec(y)
        invariant
            1970 <= y,
            rem <= days,
            days <= DAYS_MAX,
            (y - 1970) * 365 <= days - rem,
            year_split(rem as int, y as int) == year_split(days as int, 1970),
        decreases rem,
    {
        let diy = days_in_year_exec(y);
        rem = rem - diy;
        y = y + 1;
    }
    let mut m: u64 = 1;
    let mut dom: u64 = rem;
    while m < 12 && dom >= days_in_month_exec(y, m)
        invariant
            1 <= m <= 12,
            dom <= rem,
            rem <= days_in_year(y as int),
            month_split(dom as int, y as int, m as int) == month_split(rem as int, y as int, 1),
        decreases 12 - m,
    {
        let dim = days_in_month_exec(y, m);
        dom = dom - dim;
        m = m + 1;
    }
    (y, m, dom + 1)
}

/// A UTC timestamp with millisecond precision, bounded to the year 9999.
#[derive(Clone, Copy, Debug, Eq, Hash, Ord, PartialEq, PartialOrd, Structural)]
pub struct Timestamp {
    millis: u64,
}

impl Timestamp {
    /// Milliseconds since the unix epoch.
    pub closed spec fn spec_millis(self) -> u64 {
        self.millis
    }

    /// The timestamp stays within the supported calendar range.
    pub open spec fn wf(self) -> bool {
        self.spec_millis() <= TIMESTAMP_MAX_MILLIS
    }

    /// Builds a timestamp from milliseconds since the unix epoch.
    pub fn from_millis(millis: u64) -> (r: Timestamp)
        requires
            millis <= TIMESTAMP_MAX_MILLIS,
        ensures
            r.spec_millis() == millis,
            r.wf(),
    {
        Timestamp { millis }
    }

    /// Milliseconds since the unix epoch.
    pub fn millis(self) -> (r: u64)
        ensures
            r == self.spec_millis(),
    {
        self.millis
    }

    /// The creation time a snowflake id carries in its high bits.
    pub fn from_discord_id(id: u64) -> (r: Timestamp)
        ensures
            r.spec_millis() == (id >> 22) + DISCORD_EPOCH,
            r.wf(),
    {
        proof {
            assert(id >> 22 <= 0x3ff_ffff_ffff) by (bit_vector);
        }
        Timestamp { millis: (id >> 22) + DISCORD_EPOCH }
    }

    /// Whole seconds since the unix epoch.
    pub fn unix_timestamp(self) -> (r: i64)
        ensures
            r == self.spec_millis() / 1000,
    {
        (self.millis / 1000) as i64
    }

    /// The RFC 3339 rendering, `YYYY-MM-DDThh:mm:ss.mmmZ`.
    pub fn to_string(&self) -> (r: String)
        requires
            self.wf(),
        ensures
            r@ == rfc3339(self.spec_millis() as int),
    {
        let ms = self.millis;
        let secs = ms / 1000;
        let days = secs / 86400;
        let sod = secs % 86400;
        proof {
            vstd::arithmetic::div_mod::lemma_div_is_ordered(
                secs as int,
                253_402_300_799,
                86400,
            );
        }
        let ymd = civil_from_days(days);
        let mut r: String = four_digits(ymd.0);
        r.append("-");
        r.append(two_digits(ymd.1).as_str());
        r.append("-");
        r.append(two_digits(ymd.2).as_str());
        r.append("T");
        r.append(two_digits(sod / 3600).as_str());
        r.append(":");
        r.append(two_digits((sod % 3600) / 60).as_str());
        r.append(":");
        r.append(two_digits(sod % 60).as_str());
        r.append(".");
        r.append(three_digits(ms % 1000).as_str());
        r.append("Z");
        proof {
            reveal_strlit("-");
            reveal_strlit("T");
            reveal_strlit(":");
            reveal_strlit(".");
            reveal_strlit("Z");
            assert(r@ =~= rfc3339(self.spec_millis() as int));
        }
        r
    }
}

} // verus!
