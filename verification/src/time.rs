//! Points in time, and their RFC 3339 texts.

use vstd::prelude::*;

verus! {

/// Whether seconds since the Unix epoch and nanoseconds make a point in time of the
/// `chrono` crate: a year from -262143 to 262142, and a leap second only where a minute
/// ends.
pub open spec fn valid_time(secs: int, nanos: int) -> bool {
    &&& -8_334_601_228_800 <= secs <= 8_210_266_876_799
    &&& 0 <= nanos < 2_000_000_000
    &&& nanos >= 1_000_000_000 ==> secs % 60 == 59
}

/// Whether seconds since the Unix epoch lie in a year from 0 to 9999, which RFC 3339 can
/// express.
pub open spec fn four_digit_year(secs: int) -> bool {
    -62_167_219_200 <= secs <= 253_402_300_799
}

/// A point in time: seconds since the Unix epoch and nanoseconds.
#[derive(Clone, Copy, Debug, PartialEq, Eq, PartialOrd, Ord)]
pub struct Timestamp {
    secs: i64,
    nanos: u32,
}

impl Timestamp {
    #[verifier::type_invariant]
    spec fn inv(self) -> bool {
        valid_time(self.secs as int, self.nanos as int)
    }

    /// Seconds since the Unix epoch.
    pub closed spec fn spec_secs(self) -> int {
        self.secs as int
    }

    /// Nanoseconds since the last whole second.
    pub closed spec fn spec_nanos(self) -> int {
        self.nanos as int
    }

    /// The point in time; nothing where the numbers make none.
    pub fn new(secs: i64, nanos: u32) -> (time: Option<Timestamp>)
        ensures
            match time {
                Some(t) => valid_time(secs as int, nanos as int) && t.spec_secs() == secs
                    && t.spec_nanos() == nanos,
                None => !valid_time(secs as int, nanos as int),
            },
    {
        if secs < -8_334_601_228_800 || secs > 8_210_266_876_799 || nanos >= 2_000_000_000 {
            return None;
        }
        if nanos >= 1_000_000_000 {
            // Shifted by a multiple of 60, so that the remainder is not negative.
            let shifted: u64 = (secs + 8_334_601_228_800) as u64;
            if shifted % 60 != 59 {
                return None;
            }
        }
        Some(Timestamp { secs, nanos })
    }

    /// Seconds since the Unix epoch.
    pub fn secs(&self) -> (secs: i64)
        ensures
            secs == self.spec_secs(),
    {
        self.secs
    }

    /// Nanoseconds since the last whole second.
    pub fn nanos(&self) -> (nanos: u32)
        ensures
            nanos == self.spec_nanos(),
    {
        self.nanos
    }

    /// The RFC 3339 text of the point in time.
    pub fn to_rfc3339(&self) -> (text: String)
        ensures
            text@ == rfc3339_text(self.spec_secs(), self.spec_nanos()),
            four_digit_year(self.spec_secs()) ==> rfc3339_time(text@) == Some(
                (self.spec_secs(), self.spec_nanos()),
            ),
    {
        proof {
            use_type_invariant(self);
        }
        rfc3339(self.secs, self.nanos)
    }

    /// The point in time of an RFC 3339 text; nothing where it is none.
    pub fn parse_rfc3339(text: &str) -> (time: Option<Timestamp>)
        ensures
            match time {
                Some(t) => rfc3339_time(text@) == Some((t.spec_secs(), t.spec_nanos())),
                None => rfc3339_time(text@) is None,
            },
    {
        match parse(text) {
            Some((secs, nanos)) => Some(Timestamp { secs, nanos }),
            None => None,
        }
    }

    /// The point in time of a text in the looser notation that `chrono` reads; nothing where
    /// it is none.
    pub fn parse_relaxed(text: &str) -> (time: Option<Timestamp>)
        ensures
            match time {
                Some(t) => relaxed_time(text@) == Some((t.spec_secs(), t.spec_nanos())),
                None => relaxed_time(text@) is None,
            },
    {
        match relaxed(text) {
            Some((secs, nanos)) => Some(Timestamp { secs, nanos }),
            None => None,
        }
    }

    /// What the wall clock of the machine's time zone shows at this point in time, in seconds
    /// since its own 1970 began; nothing where the calendar does not reach so far.
    pub fn wall_clock(&self) -> (wall: Option<i64>)
        ensures
            may_show(self.spec_secs(), wall),
            shown_locally(self.spec_secs(), self.spec_nanos(), wall),
    {
        proof {
            use_type_invariant(self);
        }
        local_wall(self.secs, self.nanos)
    }

    /// The whole days from this point in time to another, rounded towards zero.
    pub fn days_until(&self, later: &Timestamp) -> (days: i64)
        ensures
            days == days_between(
                self.spec_secs(),
                self.spec_nanos(),
                later.spec_secs(),
                later.spec_nanos(),
            ),
            self.spec_nanos() < 1_000_000_000 && later.spec_nanos() < 1_000_000_000 ==> days
                == whole_days(
                (later.spec_secs() - self.spec_secs()) * 1_000_000_000 + later.spec_nanos()
                    - self.spec_nanos(),
            ),
    {
        proof {
            use_type_invariant(self);
            use_type_invariant(later);
        }
        elapsed_days(self.secs, self.nanos, later.secs, later.nanos)
    }

    /// The point in time that many seconds earlier; nothing where there is none.
    pub fn minus_seconds(&self, seconds: i64) -> (time: Option<Timestamp>)
        ensures
            match time {
                Some(t) => earlier_time(self.spec_secs(), self.spec_nanos(), seconds as int)
                    == Some((t.spec_secs(), t.spec_nanos())) && valid_time(
                    t.spec_secs(),
                    t.spec_nanos(),
                ),
                None => earlier_time(
                    self.spec_secs(),
                    self.spec_nanos(),
                    seconds as int,
                ) is None,
            },
            self.spec_nanos() < 1_000_000_000 ==> match time {
                Some(t) => t.spec_secs() == self.spec_secs() - seconds && t.spec_nanos()
                    == self.spec_nanos(),
                None => !valid_time(self.spec_secs() - seconds, self.spec_nanos()),
            },
    {
        proof {
            use_type_invariant(self);
        }
        match earlier(self.secs, self.nanos, seconds) {
            Some((secs, nanos)) => Some(Timestamp { secs, nanos }),
            None => None,
        }
    }
}

/// The text that `chrono::DateTime::to_rfc3339` gives a point in time in UTC.
pub uninterp spec fn rfc3339_text(secs: int, nanos: int) -> Seq<char>;

/// The point in time that `chrono::DateTime::parse_from_rfc3339` reads from a text.
pub uninterp spec fn rfc3339_time(text: Seq<char>) -> Option<(int, int)>;

/// The point in time that `chrono`'s `FromStr` for `DateTime<Utc>` reads from a text.
pub uninterp spec fn relaxed_time(text: Seq<char>) -> Option<(int, int)>;

/// `to_rfc3339` of the `chrono::DateTime<Utc>` at these numbers. Where the year has four
/// digits, parsing the text gives the same point in time.
#[verifier::external_body]
fn rfc3339(secs: i64, nanos: u32) -> (text: String)
    requires
        valid_time(secs as int, nanos as int),
    ensures
        text@ == rfc3339_text(secs as int, nanos as int),
        four_digit_year(secs as int) ==> rfc3339_time(text@) == Some((secs as int, nanos as int)),
{
    chrono::DateTime::from_timestamp(secs, nanos).unwrap().to_rfc3339()
}

/// `chrono::DateTime::parse_from_rfc3339`, taken to UTC.
#[verifier::external_body]
fn parse(text: &str) -> (time: Option<(i64, u32)>)
    ensures
        match time {
            Some(t) => rfc3339_time(text@) == Some((t.0 as int, t.1 as int)) && valid_time(
                t.0 as int,
                t.1 as int,
            ),
            None => rfc3339_time(text@) is None,
        },
{
    chrono::DateTime::parse_from_rfc3339(text).ok().map(
        |t| (t.timestamp(), t.timestamp_subsec_nanos()),
    )
}

/// `chrono`'s `FromStr` for `DateTime<Utc>`.
#[verifier::external_body]
fn relaxed(text: &str) -> (time: Option<(i64, u32)>)
    ensures
        match time {
            Some(t) => relaxed_time(text@) == Some((t.0 as int, t.1 as int)) && valid_time(
                t.0 as int,
                t.1 as int,
            ),
            None => relaxed_time(text@) is None,
        },
{
    let parsed: Result<chrono::DateTime<chrono::Utc>, _> = text.parse();
    parsed.ok().map(|t| (t.timestamp(), t.timestamp_subsec_nanos()))
}

/// The point in time that `chrono` finds that many seconds before another.
pub uninterp spec fn earlier_time(secs: int, nanos: int, seconds: int) -> Option<(int, int)>;

/// `checked_sub_signed` of `chrono::DateTime<Utc>` with a `TimeDelta` of whole seconds.
/// Outside a leap second it moves the seconds and keeps the nanoseconds; how a leap second
/// counts is left to the name.
#[verifier::external_body]
fn earlier(secs: i64, nanos: u32, seconds: i64) -> (time: Option<(i64, u32)>)
    requires
        valid_time(secs as int, nanos as int),
    ensures
        match time {
            Some(t) => earlier_time(secs as int, nanos as int, seconds as int) == Some(
                (t.0 as int, t.1 as int),
            ) && valid_time(t.0 as int, t.1 as int),
            None => earlier_time(secs as int, nanos as int, seconds as int) is None,
        },
        nanos < 1_000_000_000 ==> match time {
            Some(t) => t.0 == secs - seconds && t.1 == nanos,
            None => !valid_time(secs - seconds, nanos as int),
        },
{
    let delta = chrono::TimeDelta::try_seconds(seconds)?;
    let time = chrono::DateTime::from_timestamp(secs, nanos)?.checked_sub_signed(delta)?;
    Some((time.timestamp(), time.timestamp_subsec_nanos()))
}

/// `chrono::Utc::now`. Nothing is known of the time it gives but that it is one.
#[verifier::external_body]
fn current() -> (time: (i64, u32))
    ensures
        valid_time(time.0 as int, time.1 as int),
{
    let now = chrono::Utc::now();
    (now.timestamp(), now.timestamp_subsec_nanos())
}

// ---------- the wall clock ----------

/// Whether a wall clock may show that at a point in time: it is less than a day ahead or
/// behind, and shows something unless that point is at the end of the calendar.
pub open spec fn may_show(secs: int, wall: Option<i64>) -> bool {
    match wall {
        Some(w) => -86_400 < w - secs < 86_400 && valid_time(w as int, 0),
        None => !valid_time(secs - 86_400, 0) || !valid_time(secs + 86_400, 0),
    }
}

/// `chrono::DateTime::with_timezone` to `chrono::Local`, then `checked_add_offset` with the
/// zone's offset. The zone is the machine's, so that only what holds of every zone is stated.
#[verifier::external_body]
fn local_wall(secs: i64, nanos: u32) -> (wall: Option<i64>)
    requires
        valid_time(secs as int, nanos as int),
    ensures
        may_show(secs as int, wall),
{
    let utc = chrono::DateTime::from_timestamp(secs, nanos)?;
    let offset = *utc.with_timezone(&chrono::Local).offset();
    utc.naive_utc().checked_add_offset(offset).map(|t| t.and_utc().timestamp())
}

/// Whether that came from asking what the wall clock of the machine's time zone shows at a point
/// in time.
pub closed spec fn shown_locally(secs: int, nanos: int, wall: Option<i64>) -> bool {
    call_ensures(local_wall, (secs as i64, nanos as u32), wall)
}

/// The whole days in that many nanoseconds, rounded towards zero.
pub open spec fn whole_days(nanos: int) -> int {
    if nanos < 0 {
        -((-nanos) / 86_400_000_000_000)
    } else {
        nanos / 86_400_000_000_000
    }
}

/// The whole days from one point in time to another, as `chrono` counts them.
pub uninterp spec fn days_between(
    secs: int,
    nanos: int,
    later_secs: int,
    later_nanos: int,
) -> int;

/// `chrono::DateTime::signed_duration_since`, then `TimeDelta::num_days`: the difference in
/// whole days, rounded towards zero. How a leap second counts is left to the name.
#[verifier::external_body]
fn elapsed_days(secs: i64, nanos: u32, later_secs: i64, later_nanos: u32) -> (days: i64)
    requires
        valid_time(secs as int, nanos as int),
        valid_time(later_secs as int, later_nanos as int),
    ensures
        days == days_between(secs as int, nanos as int, later_secs as int, later_nanos as int),
        nanos < 1_000_000_000 && later_nanos < 1_000_000_000 ==> days == whole_days(
            (later_secs - secs) * 1_000_000_000 + later_nanos - nanos,
        ),
{
    let from = chrono::DateTime::from_timestamp(secs, nanos).unwrap();
    let to = chrono::DateTime::from_timestamp(later_secs, later_nanos).unwrap();
    to.signed_duration_since(from).num_days()
}

/// The year that a wall clock shows, by the calendar of `chrono`.
pub uninterp spec fn calendar_year(wall: int) -> int;

/// `chrono::Datelike::year` of the date that a wall clock shows.
#[verifier::external_body]
pub(crate) fn year_of(wall: i64) -> (year: i32)
    requires
        valid_time(wall as int, 0),
    ensures
        year == calendar_year(wall as int),
{
    chrono::Datelike::year(&chrono::DateTime::from_timestamp(wall, 0).unwrap())
}

/// Two decimal digits.
pub open spec fn two_digits(n: int) -> Seq<char> {
    seq![(48 + n / 10) as char, (48 + n % 10) as char]
}

/// Hours and minutes on a wall clock.
pub open spec fn clock(wall: int) -> Seq<char> {
    two_digits(wall % 86_400 / 3600) + ":"@ + two_digits(wall % 3600 / 60)
}

/// The short name of the day of the week; the first of January 1970 was a Thursday.
pub open spec fn weekday(wall: int) -> Seq<char> {
    let d = (wall / 86_400 + 4) % 7;
    if d == 0 {
        "Sun"@
    } else if d == 1 {
        "Mon"@
    } else if d == 2 {
        "Tue"@
    } else if d == 3 {
        "Wed"@
    } else if d == 4 {
        "Thu"@
    } else if d == 5 {
        "Fri"@
    } else {
        "Sat"@
    }
}

/// The text that `chrono` gives what a wall clock shows, by a pattern.
pub uninterp spec fn strftime_text(wall: int, pattern: Seq<char>) -> Seq<char>;

/// Whether a pattern is one of those that times are written by.
pub open spec fn is_pattern(pattern: Seq<char>) -> bool {
    ||| pattern == "%H:%M"@
    ||| pattern == "%a %H:%M"@
    ||| pattern == "%b %d %H:%M"@
    ||| pattern == "%Y-%m-%d %H:%M"@
}

/// `chrono::DateTime::format`, as text. `%H` and `%M` are the hour and the minute in two
/// digits, `%a` the short name of the day of the week.
#[verifier::external_body]
pub(crate) fn strftime(wall: i64, pattern: &str) -> (text: String)
    requires
        valid_time(wall as int, 0),
        is_pattern(pattern@),
    ensures
        text@ == strftime_text(wall as int, pattern@),
        pattern@ == "%H:%M"@ ==> text@ == clock(wall as int),
        pattern@ == "%a %H:%M"@ ==> text@ == weekday(wall as int) + " "@ + clock(wall as int),
{
    chrono::DateTime::from_timestamp(wall, 0).unwrap().format(pattern).to_string()
}

/// Whether a point in time came from reading the system's clock.
pub closed spec fn read_from_clock(secs: int, nanos: int) -> bool {
    exists|time: (i64, u32)| #[trigger]
        call_ensures(current, (), time) && secs == time.0 && nanos == time.1
}

/// The time by the system's clock.
pub(crate) fn utc_now() -> (now: Timestamp)
    ensures
        read_from_clock(now.spec_secs(), now.spec_nanos()),
{
    let (secs, nanos) = current();
    Timestamp { secs, nanos }
}

} // verus!
