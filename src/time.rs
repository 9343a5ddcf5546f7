//! The CCSDS day-segmented short time code: a p-field, a 16-bit count of days since
//! 1958-01-01 and a 32-bit count of milliseconds of the day, with the UNIX seconds and the
//! UTC calendar time that they stand for.
use vstd::prelude::*;

use chrono::{Datelike, Timelike};

use crate::ccsds::PacketError;

verus! {

/// Length of the CDS short time code.
pub const CDS_SHORT_LEN: usize = 7;

/// Days from the CCSDS epoch (1958-01-01) to the UNIX epoch (1970-01-01), negated.
pub const DAYS_CCSDS_TO_UNIX: i32 = -4383;

pub const SECONDS_PER_DAY: u32 = 86400;

/// Milliseconds in a day.
pub const MS_PER_DAY: u32 = 86_400_000;

/// Largest magnitude of a UNIX time in seconds handed to the calendar conversion; about
/// 34 800 years.
pub const MAX_TIMESTAMP_SECS: i64 = 0x100_0000_0000;

/// The CCSDS time code families.
#[derive(PartialEq, Eq, Structural, Copy, Clone, Debug)]
pub enum CcsdsTimeCodes {
    NoCode,
    CucCcsdsEpoch,
    CucAgencyEpoch,
    Cds,
    Ccs,
}

pub open spec fn time_code_value(c: CcsdsTimeCodes) -> u8 {
    match c {
        CcsdsTimeCodes::NoCode => 0,
        CcsdsTimeCodes::CucCcsdsEpoch => 0b001,
        CcsdsTimeCodes::CucAgencyEpoch => 0b010,
        CcsdsTimeCodes::Cds => 0b100,
        CcsdsTimeCodes::Ccs => 0b101,
    }
}

impl CcsdsTimeCodes {
    /// The three-bit code of the family.
    pub fn code(&self) -> (r: u8)
        ensures
            r == time_code_value(*self),
    {
        match self {
            CcsdsTimeCodes::NoCode => 0,
            CcsdsTimeCodes::CucCcsdsEpoch => 0b001,
            CcsdsTimeCodes::CucAgencyEpoch => 0b010,
            CcsdsTimeCodes::Cds => 0b100,
            CcsdsTimeCodes::Ccs => 0b101,
        }
    }
}

/// Converts days since the UNIX epoch to days since the CCSDS epoch.
pub fn unix_to_ccsds_days(unix_days: i32) -> (r: i32)
    requires
        unix_days <= i32::MAX + DAYS_CCSDS_TO_UNIX,
    ensures
        r == unix_days - DAYS_CCSDS_TO_UNIX,
{
    unix_days - DAYS_CCSDS_TO_UNIX
}

/// Converts days since the CCSDS epoch to days since the UNIX epoch.
pub fn ccsds_to_unix_days(ccsds_days: i32) -> (r: i32)
    requires
        ccsds_days >= i32::MIN - DAYS_CCSDS_TO_UNIX,
    ensures
        r == ccsds_days + DAYS_CCSDS_TO_UNIX,
{
    ccsds_days + DAYS_CCSDS_TO_UNIX
}

/// A calendar date and time of day in UTC.
#[derive(PartialEq, Eq, Structural, Copy, Clone, Debug)]
pub struct UtcDateTime {
    pub year: i32,
    pub month: u32,
    pub day: u32,
    pub hour: u32,
    pub minute: u32,
    pub second: u32,
    pub nanosecond: u32,
}

/// Year, month and day of the proleptic Gregorian calendar that lie `days` days after
/// 1970-01-01 (before it, for negative `days`). Years run in 400-year eras of 146 097
/// days; within an era, years are counted from March so that the leap day falls last.
pub open spec fn civil_from_days(days: int) -> (int, int, int) {
    let z = days + 719468;
    let era = z / 146097;
    let doe = z - era * 146097;
    let yoe = (doe - doe / 1460 + doe / 36524 - doe / 146096) / 365;
    let doy = doe - (365 * yoe + yoe / 4 - yoe / 100);
    let mp = (5 * doy + 2) / 153;
    let d = doy - (153 * mp + 2) / 5 + 1;
    let m = if mp < 10 {
        mp + 3
    } else {
        mp - 9
    };
    (yoe + era * 400 + if m <= 2 {
        1int
    } else {
        0int
    }, m, d)
}

/// The UTC calendar time of `secs` seconds and `nanos` nanoseconds after the UNIX epoch.
pub open spec fn utc_of_timestamp(secs: int, nanos: int) -> UtcDateTime {
    let (y, m, d) = civil_from_days(secs / 86400);
    let sod = secs % 86400;
    UtcDateTime {
        year: y as i32,
        month: m as u32,
        day: d as u32,
        hour: (sod / 3600) as u32,
        minute: ((sod % 3600) / 60) as u32,
        second: (sod % 60) as u32,
        nanosecond: nanos as u32,
    }
}

/// Relies on chrono's `DateTime::from_timestamp`: the proleptic Gregorian date and the
/// time of day of a UNIX timestamp. It returns `None` only where the day falls outside
/// chrono's range of years (about 262 000 years each way) or the nanoseconds exceed a
/// second.
#[verifier::external_body]
fn utc_from_timestamp(secs: i64, nanos: u32) -> (r: Option<UtcDateTime>)
    requires
        nanos < 1_000_000_000,
    ensures
        -MAX_TIMESTAMP_SECS <= secs <= MAX_TIMESTAMP_SECS ==> r is Some,
        r matches Some(d) ==> d == utc_of_timestamp(secs as int, nanos as int),
{
    match chrono::DateTime::from_timestamp(secs, nanos) {
        Some(dt) => Some(UtcDateTime {
            year: dt.year(),
            month: dt.month(),
            day: dt.day(),
            hour: dt.hour(),
            minute: dt.minute(),
            second: dt.second(),
            nanosecond: dt.nanosecond(),
        }),
        None => None,
    }
}

impl UtcDateTime {
    pub fn year(&self) -> (r: i32)
        ensures
            r == self.year,
    {
        self.year
    }

    pub fn month(&self) -> (r: u32)
        ensures
            r == self.month,
    {
        self.month
    }

    pub fn day(&self) -> (r: u32)
        ensures
            r == self.day,
    {
        self.day
    }

    pub fn hour(&self) -> (r: u32)
        ensures
            r == self.hour,
    {
        self.hour
    }

    pub fn minute(&self) -> (r: u32)
        ensures
            r == self.minute,
    {
        self.minute
    }

    pub fn second(&self) -> (r: u32)
        ensures
            r == self.second,
    {
        self.second
    }

    pub fn nanosecond(&self) -> (r: u32)
        ensures
            r == self.nanosecond,
    {
        self.nanosecond
    }
}

/// The contents of a CDS short timestamp, as plain values.
pub struct CdsShortView {
    pub pfield: u8,
    pub ccsds_days: u16,
    pub ms_of_day: u32,
    pub unix_seconds: i64,
    pub date_time: UtcDateTime,
}

/// UNIX seconds of a day count and a millisecond of the day: the days, moved to the UNIX
/// epoch, in seconds, plus the whole seconds of the day. Both parts are added whatever the
/// sign of the first.
pub open spec fn cds_unix_seconds(ccsds_days: u16, ms_of_day: u32) -> int {
    (ccsds_days as int + DAYS_CCSDS_TO_UNIX) * 86400 + ms_of_day as int / 1000
}

/// The timestamp of a day count and a millisecond of the day.
pub open spec fn cds_short_view(ccsds_days: u16, ms_of_day: u32) -> CdsShortView {
    let secs = cds_unix_seconds(ccsds_days, ms_of_day);
    CdsShortView {
        pfield: (time_code_value(CcsdsTimeCodes::Cds) * 16) as u8,
        ccsds_days,
        ms_of_day,
        unix_seconds: secs as i64,
        date_time: utc_of_timestamp(secs, (ms_of_day as int % 1000) * 1_000_000),
    }
}

/// The CDS short time code with its UNIX seconds and calendar time, computed once at
/// construction.
#[derive(Debug, Copy, Clone)]
pub struct CdsShortTimeProvider {
    pfield: u8,
    ccsds_days: u16,
    ms_of_day: u32,
    unix_seconds: i64,
    date_time: UtcDateTime,
}

impl View for CdsShortTimeProvider {
    type V = CdsShortView;

    closed spec fn view(&self) -> CdsShortView {
        CdsShortView {
            pfield: self.pfield,
            ccsds_days: self.ccsds_days,
            ms_of_day: self.ms_of_day,
            unix_seconds: self.unix_seconds,
            date_time: self.date_time,
        }
    }
}

impl CdsShortTimeProvider {
    /// The millisecond of the day is below a day, and the other fields follow from it and
    /// the day count.
    pub open spec fn wf(&self) -> bool {
        self@.ms_of_day < MS_PER_DAY && self@ == cds_short_view(self@.ccsds_days, self@.ms_of_day)
    }

    /// The timestamp of `ccsds_days` days after 1958-01-01 and `ms_of_day` milliseconds
    /// into that day.
    pub fn new(ccsds_days: u16, ms_of_day: u32) -> (r: Self)
        requires
            ms_of_day < MS_PER_DAY,
        ensures
            r@ == cds_short_view(ccsds_days, ms_of_day),
            r.wf(),
    {
        let unix_days = ccsds_to_unix_days(ccsds_days as i32) as i64;
        assert(-4383 * 86400 <= unix_days * 86400 <= 61152 * 86400) by (nonlinear_arith)
            requires
                -4383 <= unix_days <= 61152,
        ;
        let unix_days_seconds = unix_days * (SECONDS_PER_DAY as i64);
        Self::setup(ccsds_days, ms_of_day, unix_days_seconds)
    }

    /// The timestamp of a UNIX time given as whole seconds and the milliseconds of the
    /// current second; `None` where the milliseconds are a second or more or the day does
    /// not fit the 16-bit day count.
    pub fn from_unix_time(unix_secs: u64, subsec_millis: u32) -> (r: Option<Self>)
        ensures
            r is Some <==> (subsec_millis < 1000 && unix_secs / 86400 - DAYS_CCSDS_TO_UNIX
                <= u16::MAX),
            r matches Some(t) ==> t.wf() && t@ == cds_short_view(
                (unix_secs / 86400 - DAYS_CCSDS_TO_UNIX) as u16,
                ((unix_secs % 86400) * 1000 + subsec_millis) as u32,
            ),
    {
        if subsec_millis >= 1000 {
            return None;
        }
        let unix_days = unix_secs / (SECONDS_PER_DAY as u64);
        if unix_days > (u16::MAX as u64) - 4383 {
            return None;
        }
        let secs_of_day = unix_secs % (SECONDS_PER_DAY as u64);
        let ms_of_day = (secs_of_day * 1000) as u32 + subsec_millis;
        let ccsds_days = unix_to_ccsds_days(unix_days as i32) as u16;
        Some(Self::new(ccsds_days, ms_of_day))
    }

    fn setup(ccsds_days: u16, ms_of_day: u32, unix_days_seconds: i64) -> (r: Self)
        requires
            ms_of_day < MS_PER_DAY,
            unix_days_seconds == (ccsds_days as int + DAYS_CCSDS_TO_UNIX) * 86400,
        ensures
            r@ == cds_short_view(ccsds_days, ms_of_day),
    {
        let unix_seconds = Self::calc_unix_seconds(unix_days_seconds, ms_of_day as u64);
        let date_time = Self::calc_date_time(unix_seconds, ms_of_day % 1000);
        CdsShortTimeProvider {
            pfield: CcsdsTimeCodes::Cds.code() * 16,
            ccsds_days,
            ms_of_day,
            unix_seconds,
            date_time,
        }
    }

    /// The seconds of the days plus the whole seconds of the day.
    fn calc_unix_seconds(unix_days_seconds: i64, ms_of_day: u64) -> (r: i64)
        requires
            -MAX_TIMESTAMP_SECS <= unix_days_seconds <= MAX_TIMESTAMP_SECS - 86400,
            ms_of_day < MS_PER_DAY,
        ensures
            r == unix_days_seconds + ms_of_day / 1000,
    {
        unix_days_seconds + (ms_of_day / 1000) as i64
    }

    fn calc_date_time(unix_seconds: i64, ms_since_last_second: u32) -> (r: UtcDateTime)
        requires
            -MAX_TIMESTAMP_SECS <= unix_seconds <= MAX_TIMESTAMP_SECS,
            ms_since_last_second < 1000,
        ensures
            r == utc_of_timestamp(unix_seconds as int, ms_since_last_second as int * 1_000_000),
    {
        let ns_since_last_sec = ms_since_last_second * 1_000_000;
        utc_from_timestamp(unix_seconds, ns_since_last_sec).unwrap()
    }

    /// Length of the time code.
    pub fn len(&self) -> (r: usize)
        ensures
            r == CDS_SHORT_LEN,
    {
        CDS_SHORT_LEN
    }

    /// Writes the p-field, the day count big endian, a reserved zero byte and the
    /// millisecond of the day big endian to the start of `bytes`, which needs eight bytes
    /// for it.
    pub fn write_to_bytes(&self, bytes: &mut [u8]) -> (r: Result<(), PacketError>)
        ensures
            old(bytes)@.len() < CDS_SHORT_LEN + 1 ==> r == Err::<(), PacketError>(
                PacketError::ToBytesSliceTooSmall(old(bytes)@.len() as usize),
            ) && final(bytes)@ == old(bytes)@,
            old(bytes)@.len() >= CDS_SHORT_LEN + 1 ==> r is Ok && final(bytes)@ == self.spec_bytes()
                + old(bytes)@.subrange(8, old(bytes)@.len() as int),
    {
        if bytes.len() < CDS_SHORT_LEN + 1 {
            return Err(PacketError::ToBytesSliceTooSmall(bytes.len()));
        }
        bytes[0] = self.pfield;
        bytes[1] = (self.ccsds_days / 256) as u8;
        bytes[2] = (self.ccsds_days % 256) as u8;
        bytes[3] = 0;
        bytes[4] = (self.ms_of_day / 0x100_0000) as u8;
        bytes[5] = ((self.ms_of_day / 0x1_0000) % 256) as u8;
        bytes[6] = ((self.ms_of_day / 256) % 256) as u8;
        bytes[7] = (self.ms_of_day % 256) as u8;
        assert(bytes@ =~= self.spec_bytes() + old(bytes)@.subrange(8, old(bytes)@.len() as int));
        Ok(())
    }

    /// The encoded time code.
    pub open spec fn spec_bytes(&self) -> Seq<u8> {
        seq![
            self@.pfield,
            (self@.ccsds_days / 256) as u8,
            (self@.ccsds_days % 256) as u8,
            0u8,
            (self@.ms_of_day / 0x100_0000) as u8,
            ((self@.ms_of_day / 0x1_0000) % 256) as u8,
            ((self@.ms_of_day / 256) % 256) as u8,
            (self@.ms_of_day % 256) as u8,
        ]
    }

    /// The p-field: its length and its bytes.
    pub fn p_field(&self) -> (r: (usize, [u8; 2]))
        ensures
            r.0 == 1,
            r.1@ == seq![self@.pfield, 0u8],
    {
        let f: [u8; 2] = [self.pfield, 0];
        assert(f@ =~= seq![self@.pfield, 0u8]);
        (1, f)
    }

    pub fn ccdsd_time_code(&self) -> (r: CcsdsTimeCodes)
        ensures
            r == CcsdsTimeCodes::Cds,
    {
        CcsdsTimeCodes::Cds
    }

    pub fn ccsds_days(&self) -> (r: u16)
        ensures
            r == self@.ccsds_days,
    {
        self.ccsds_days
    }

    pub fn ms_of_day(&self) -> (r: u32)
        ensures
            r == self@.ms_of_day,
    {
        self.ms_of_day
    }

    pub fn unix_seconds(&self) -> (r: i64)
        ensures
            r == self@.unix_seconds,
    {
        self.unix_seconds
    }

    pub fn date_time(&self) -> (r: UtcDateTime)
        ensures
            r == self@.date_time,
    {
        self.date_time
    }
}

} // verus!
