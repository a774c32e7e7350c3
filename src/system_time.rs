//! The System Time message: date and time of day, and where they come from.
use crate::nmea_frame::SystemTimeFrame;
use crate::parse::{field_value, take_byte, take_nibble, take_u16, take_u32, BitReader};
use crate::{Message, NmeaError};
use vstd::prelude::*;

verus! {

/// The clock that a time was taken from.
#[derive(Clone, Copy, Debug, PartialEq, Eq, Structural)]
pub enum SystemTimeSource {
    GPS,
    GLONASS,
    RadioStation,
    LocalCesiumClock,
    LocalRubidiumClock,
    LocalCrystalClock,
}

/// The source that a raw 4-bit value stands for: 0 to 5, nothing else.
pub open spec fn system_time_source_of(v: nat) -> Option<SystemTimeSource> {
    if v == 0 {
        Some(SystemTimeSource::GPS)
    } else if v == 1 {
        Some(SystemTimeSource::GLONASS)
    } else if v == 2 {
        Some(SystemTimeSource::RadioStation)
    } else if v == 3 {
        Some(SystemTimeSource::LocalCesiumClock)
    } else if v == 4 {
        Some(SystemTimeSource::LocalRubidiumClock)
    } else if v == 5 {
        Some(SystemTimeSource::LocalCrystalClock)
    } else {
        None
    }
}

impl SystemTimeSource {
    /// The source of a raw field value.
    pub fn from_u8(v: u8) -> (r: Option<SystemTimeSource>)
        ensures
            r == system_time_source_of(v as nat),
    {
        if v == 0 {
            Some(SystemTimeSource::GPS)
        } else if v == 1 {
            Some(SystemTimeSource::GLONASS)
        } else if v == 2 {
            Some(SystemTimeSource::RadioStation)
        } else if v == 3 {
            Some(SystemTimeSource::LocalCesiumClock)
        } else if v == 4 {
            Some(SystemTimeSource::LocalRubidiumClock)
        } else if v == 5 {
            Some(SystemTimeSource::LocalCrystalClock)
        } else {
            None
        }
    }
}

/// A time of day in units of 0.0001 s.
#[derive(Clone, Copy, Debug, PartialEq, Eq)]
pub struct Time {
    time: u32,
}

impl View for Time {
    type V = nat;

    /// The time in units of 0.0001 s.
    closed spec fn view(&self) -> nat {
        self.time as nat
    }
}

impl Time {
    /// A time from its wire value.
    pub fn new(time: u32) -> (r: Time)
        ensures
            r@ == time,
    {
        Time { time }
    }

    /// The whole seconds of this time.
    pub fn get_seconds(&self) -> (r: u32)
        ensures
            r == self@ / 10000,
    {
        self.time / 10000
    }
}

/// A decoded System Time message.
#[derive(Clone, Copy, Debug)]
pub struct SystemTime {
    pub sid: u8,
    pub source: Option<SystemTimeSource>,
    /// Days since 1970-01-01.
    pub date: u16,
    pub time: Time,
}

/// The number of bits that a System Time record takes.
pub open spec fn system_time_bits() -> nat {
    64
}

/// Whether `t` is the System Time record laid out in `data` from bit `s` on:
/// sid (8), source (4), reserved (4), date (16), time since midnight (32).
pub open spec fn system_time_at(data: Seq<u8>, s: int, t: SystemTime) -> bool {
    &&& t.sid == field_value(data, s, 8)
    &&& t.source == system_time_source_of(field_value(data, s + 8, 4))
    &&& t.date == field_value(data, s + 16, 16)
    &&& t.time@ == field_value(data, s + 32, 32)
}

/// Reads a System Time record at the cursor; `ParseError` when too few bits are left.
pub fn parse_system_time(i: &mut BitReader) -> (r: Result<SystemTime, NmeaError>)
    requires
        old(i).pos + 128 <= usize::MAX,
    ensures
        final(i).data == old(i).data,
        r is Ok <==> old(i).has_bits(system_time_bits()),
        r is Ok ==> system_time_at(old(i).data@, old(i).pos as int, r->Ok_0) && final(i).pos
            == old(i).pos + system_time_bits(),
        r is Err ==> r->Err_0 == NmeaError::ParseError,
{
    let sid = take_byte(i)?;
    let source_raw = take_nibble(i)?;
    let _reserved = take_nibble(i)?;
    let date = take_u16(i)?;
    let time = take_u32(i)?;
    Ok(SystemTime { sid, source: SystemTimeSource::from_u8(source_raw), date, time: Time::new(time) })
}

impl Message<SystemTime, SystemTimeFrame> for SystemTime {
    /// An eight-byte payload always holds a record.
    open spec fn decodes(frame: SystemTimeFrame, r: Result<SystemTime, NmeaError>) -> bool {
        r is Ok && system_time_at(frame.data@, 0, r->Ok_0)
    }

    fn get_data(frame: SystemTimeFrame) -> (r: Result<SystemTime, NmeaError>) {
        let data = frame.data;
        let mut i = BitReader::new(data.as_slice());
        parse_system_time(&mut i)
    }
}

/// Two times with the same view are the same time.
pub proof fn lemma_time_view_injective(a: Time, b: Time)
    requires
        a@ == b@,
    ensures
        a == b,
{
}

/// A payload holds one System Time record only: decoding it twice gives the same record.
pub proof fn lemma_system_time_unique(data: Seq<u8>, s: int, x: SystemTime, y: SystemTime)
    requires
        system_time_at(data, s, x),
        system_time_at(data, s, y),
    ensures
        x == y,
{
    lemma_time_view_injective(x.time, y.time);
}

} // verus!
