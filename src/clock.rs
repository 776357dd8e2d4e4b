use vstd::prelude::*;
use vstd::string::*;
use crate::digits::padded_digits;

verus! {

/// Seconds in one day.
pub const SECS_PER_DAY: u32 = 86400;

/// A local time of day: whole seconds since midnight and a sub-second part
/// in nanoseconds, which reaches past one second only during a leap second.
#[derive(Clone, Copy, Debug, PartialEq, Eq, Structural)]
pub struct TimeOfDay {
    pub secs: u32,
    pub nanos: u32,
}

impl TimeOfDay {
    pub open spec fn wf(self) -> bool {
        &&& self.secs < SECS_PER_DAY
        &&& self.nanos < 2_000_000_000
    }

    /// Times of day are ordered by seconds first, then by the sub-second part.
    pub open spec fn before(self, other: TimeOfDay) -> bool {
        ||| self.secs < other.secs
        ||| (self.secs == other.secs && self.nanos < other.nanos)
    }

    /// The start of hour `hour`.
    pub open spec fn spec_at_hour(hour: nat) -> TimeOfDay {
        TimeOfDay { secs: (hour * 3600) as u32, nanos: 0 }
    }

    /// The start of hour `hour`, as `hour:00:00`.
    pub fn at_hour(hour: u8) -> (r: TimeOfDay)
        requires
            hour < 24,
        ensures
            r == Self::spec_at_hour(hour as nat),
            r.wf(),
    {
        TimeOfDay { secs: (hour as u32) * 3600, nanos: 0 }
    }

    pub fn is_before(&self, other: &TimeOfDay) -> (r: bool)
        ensures
            r == self.before(*other),
    {
        self.secs < other.secs || (self.secs == other.secs && self.nanos < other.nanos)
    }
}

/// A local calendar date and time, down to the nanosecond.
#[derive(Clone, Copy, Debug, PartialEq, Eq, Structural)]
pub struct Stamp {
    pub year: u32,
    pub month: u32,
    pub day: u32,
    pub hour: u32,
    pub minute: u32,
    pub second: u32,
    pub nanos: u32,
}

pub open spec fn is_leap_year(year: nat) -> bool {
    year % 4 == 0 && (year % 100 != 0 || year % 400 == 0)
}

pub open spec fn days_in_month(year: nat, month: nat) -> nat {
    if month == 2 {
        if is_leap_year(year) { 29 } else { 28 }
    } else if month == 4 || month == 6 || month == 9 || month == 11 {
        30
    } else {
        31
    }
}

impl Stamp {
    /// A real calendar date with a four-digit year, and a time of day
    /// outside any leap second.
    pub open spec fn wf(self) -> bool {
        &&& self.year <= 9999
        &&& 1 <= self.month <= 12
        &&& 1 <= self.day <= days_in_month(self.year as nat, self.month as nat)
        &&& self.hour < 24
        &&& self.minute < 60
        &&& self.second < 60
        &&& self.nanos < 1_000_000_000
    }
}

/// The strftime pattern of error file names.
pub open spec fn stamp_pattern() -> Seq<char> {
    "%Y-%m-%d_%H-%M-%S-%f"@
}

/// `year-month-day_hour-minute-second-nanoseconds`, every field zero-padded
/// (four digits of year, nine of nanoseconds, two of the others).
pub open spec fn stamp_name(s: Stamp) -> Seq<char> {
    padded_digits(s.year as nat, 4) + seq!['-'] + padded_digits(s.month as nat, 2) + seq!['-']
        + padded_digits(s.day as nat, 2) + seq!['_'] + padded_digits(s.hour as nat, 2) + seq![
        '-',
    ] + padded_digits(s.minute as nat, 2) + seq!['-'] + padded_digits(s.second as nat, 2)
        + seq!['-'] + padded_digits(s.nanos as nat, 9)
}

/// Relies on chrono's `format` of a `NaiveDateTime` with the pattern
/// `%Y-%m-%d_%H-%M-%S-%f`: `%Y` writes a year in 0..=9999 as four digits,
/// `%m %d %H %M %S` two digits each, `%f` the nanoseconds as nine digits,
/// all zero-padded. The date and time are built by `NaiveDate::from_ymd_opt`
/// and `and_hms_nano_opt`, which succeed on a valid stamp.
#[verifier::external_body]
fn format_stamp(s: &Stamp, pattern: &str) -> (r: String)
    requires
        s.wf(),
        pattern@ == stamp_pattern(),
    ensures
        r@ == stamp_name(*s),
{
    chrono::NaiveDate::from_ymd_opt(s.year as i32, s.month, s.day)
        .unwrap()
        .and_hms_nano_opt(s.hour, s.minute, s.second, s.nanos)
        .unwrap()
        .format(pattern)
        .to_string()
}

/// The path of the file that records an error reported at `stamp`: a file
/// inside `folder` named after the stamp.
pub fn error_file_path(folder: &str, stamp: &Stamp) -> (r: String)
    requires
        stamp.wf(),
    ensures
        r@ == folder@ + seq!['/'] + stamp_name(*stamp),
{
    let name = format_stamp(stamp, "%Y-%m-%d_%H-%M-%S-%f");
    let mut path = String::from_str(folder);
    path.append("/");
    path.append(name.as_str());
    proof {
        reveal_strlit("/");
    }
    assert(path@ =~= folder@ + seq!['/'] + stamp_name(*stamp));
    path
}

} // verus!
