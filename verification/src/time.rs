//! Points in time.

use vstd::prelude::*;

verus! {

/// The first and the last second, counted from 1970, that a calendar date of
/// `chrono` can name.
pub const MIN_SECS: i64 = -8_334_601_228_800;

pub const MAX_SECS: i64 = 8_210_266_876_799;

/// Every offset from UTC is less than this many seconds, east or west.
pub const SECS_PER_DAY: i32 = 86_400;

/// A date and a time of day without a time zone: the seconds from the start of
/// 1970, and the nanoseconds since the last whole second. During a leap second
/// the nanoseconds count on beyond one second.
#[derive(Clone, Copy, Debug, PartialEq, Eq, Structural)]
pub struct NaiveDateTime {
    pub secs: i64,
    pub nanos: u32,
}

/// A point in time together with the offset from UTC at which it was written
/// down.
#[derive(Clone, Copy, Debug, PartialEq, Eq, Structural)]
pub struct DateTime {
    secs: i64,
    nanos: u32,
    offset: i32,
}

/// What makes seconds since 1970 in UTC, nanoseconds and an offset a
/// point in time: both the UTC time and the local time can be named, and there is
/// room for a leap second.
pub open spec fn is_point_in_time(secs: i64, nanos: u32, offset: i32) -> bool {
    &&& MIN_SECS <= secs <= MAX_SECS
    &&& -SECS_PER_DAY < offset < SECS_PER_DAY
    &&& MIN_SECS <= secs + offset <= MAX_SECS
    &&& nanos < 2_000_000_000
}

/// `naive_local` of `chrono::DateTime<FixedOffset>`: the clock at the offset
/// `offset` east of UTC shows the seconds of UTC plus the offset, with the same
/// fraction of a second. A local time outside of the calendar of `chrono` makes
/// it panic, which the precondition rules out, as it does the values that
/// `from_timestamp`, `with_nanosecond` and `east_opt` refuse.
#[verifier::external_body]
fn naive_local(secs: i64, nanos: u32, offset: i32) -> (res: (i64, u32))
    requires
        is_point_in_time(secs, nanos, offset),
    ensures
        res.0 == secs + offset,
        res.1 == nanos,
{
    let zone = chrono::FixedOffset::east_opt(offset).unwrap();
    let second = chrono::DateTime::from_timestamp(secs, 0).unwrap().naive_utc();
    let utc = chrono::Timelike::with_nanosecond(&second, nanos).unwrap().and_utc();
    let point = utc.with_timezone(&zone);
    let local = point.naive_local().and_utc();
    (local.timestamp(), local.timestamp_subsec_nanos())
}

impl DateTime {
    /// The seconds from the start of 1970 in UTC.
    pub closed spec fn secs(self) -> i64 {
        self.secs
    }

    /// The nanoseconds since the last whole second.
    pub closed spec fn nanos(self) -> u32 {
        self.nanos
    }

    /// The offset from UTC in seconds, positive to the east.
    pub closed spec fn offset(self) -> i32 {
        self.offset
    }

    #[verifier::type_invariant]
    spec fn well_formed(self) -> bool {
        is_point_in_time(self.secs, self.nanos, self.offset)
    }

    /// What a clock at the offset shows.
    pub open spec fn local(self) -> NaiveDateTime {
        NaiveDateTime { secs: (self.secs() + self.offset()) as i64, nanos: self.nanos() }
    }

    /// A point in time from the seconds since 1970 in UTC, the nanoseconds and the
    /// offset; `None` if they do not make one.
    pub fn new(secs: i64, nanos: u32, offset: i32) -> (res: Option<DateTime>)
        ensures
            res is Some <==> is_point_in_time(secs, nanos, offset),
            res matches Some(point) ==> point.secs() == secs && point.nanos() == nanos
                && point.offset() == offset,
    {
        if secs < MIN_SECS || secs > MAX_SECS || offset <= -SECS_PER_DAY || offset
            >= SECS_PER_DAY {
            return None;
        }
        let local: i64 = secs + offset as i64;
        if local < MIN_SECS || local > MAX_SECS {
            return None;
        }
        if nanos < 2_000_000_000 {
            Some(DateTime { secs, nanos, offset })
        } else {
            None
        }
    }

    /// The seconds from the start of 1970 in UTC, the nanoseconds and the offset.
    pub fn parts(&self) -> (res: (i64, u32, i32))
        ensures
            res == (self.secs(), self.nanos(), self.offset()),
    {
        (self.secs, self.nanos, self.offset)
    }

    /// The date and time that a clock at the offset shows.
    pub fn naive_local(&self) -> (res: NaiveDateTime)
        ensures
            res == self.local(),
            res.secs == self.secs() + self.offset(),
            res.nanos == self.nanos(),
    {
        proof {
            use_type_invariant(self);
        }
        let (secs, nanos) = naive_local(self.secs, self.nanos, self.offset);
        NaiveDateTime { secs, nanos }
    }
}

/// Every second of the calendar is a point in time at every offset of less than a day, as long as
/// the local time is in the calendar too, with up to two seconds of nanoseconds for a leap second.
pub proof fn points_in_time_are_those_of_the_calendar(secs: i64, nanos: u32, offset: i32)
    ensures
        is_point_in_time(secs, nanos, offset) <==> {
            &&& -8_334_601_228_800 <= secs <= 8_210_266_876_799
            &&& -86_400 < offset < 86_400
            &&& -8_334_601_228_800 <= secs + offset <= 8_210_266_876_799
            &&& nanos < 2_000_000_000
        },
{
}

/// The clock at the offset shows the seconds of UTC and the offset together, with the same
/// nanoseconds.
pub proof fn clocks_show_the_offset(point: DateTime)
    requires
        i64::MIN <= point.secs() + point.offset() <= i64::MAX,
    ensures
        point.local().secs == point.secs() + point.offset(),
        point.local().nanos == point.nanos(),
{
}

} // verus!
