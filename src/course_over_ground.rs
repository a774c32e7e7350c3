//! The COG & SOG Rapid Update message: course and speed over ground.
use crate::nmea_frame::COGSOGRapidUpdateFrame;
use crate::parse::{field_value, take_byte, take_nibble, take_two_bits, take_u16, BitReader};
use crate::rad::{lemma_rad_view_injective, Rad};
use crate::vessel_heading::{direction_reference_of, DirectionReference};
use crate::{Message, NmeaError};
use vstd::prelude::*;

verus! {

/// A decoded COG & SOG Rapid Update message.
#[derive(Debug)]
pub struct CourseOverGround {
    pub sid: u8,
    pub cog_reference: Option<DirectionReference>,
    /// Course over ground, in ten-thousandths of a radian.
    pub cog: Rad,
    /// Speed over ground, in units of 0.01 m/s.
    pub sog: u16,
}

/// The number of bits that a COG & SOG record takes.
pub open spec fn course_over_ground_bits() -> nat {
    48
}

/// Whether `c` is the COG & SOG record laid out in `data` from bit `s` on:
/// sid (8), reference (2), reserved (6), course (16), speed (16).
pub open spec fn course_over_ground_at(data: Seq<u8>, s: int, c: CourseOverGround) -> bool {
    &&& c.sid == field_value(data, s, 8)
    &&& c.cog_reference == direction_reference_of(field_value(data, s + 8, 2))
    &&& c.cog@ == field_value(data, s + 16, 16)
    &&& c.sog == field_value(data, s + 32, 16)
}

impl CourseOverGround {
    /// A record with a true course and a speed of zero.
    pub fn new() -> (r: CourseOverGround)
        ensures
            r.sid == 0,
            r.cog_reference == Some(DirectionReference::True),
            r.cog@ == 0,
            r.sog == 0,
    {
        CourseOverGround {
            sid: 0,
            cog_reference: Some(DirectionReference::True),
            cog: Rad::new(0),
            sog: 0,
        }
    }
}

/// Reads a COG & SOG record at the cursor; `ParseError` when too few bits are left.
pub fn parse_course_over_ground(i: &mut BitReader) -> (r: Result<CourseOverGround, NmeaError>)
    requires
        old(i).pos + 128 <= usize::MAX,
    ensures
        final(i).data == old(i).data,
        r is Ok <==> old(i).has_bits(course_over_ground_bits()),
        r is Ok ==> course_over_ground_at(old(i).data@, old(i).pos as int, r->Ok_0)
            && final(i).pos == old(i).pos + course_over_ground_bits(),
        r is Err ==> r->Err_0 == NmeaError::ParseError,
{
    let sid = take_byte(i)?;
    let cog_reference = take_two_bits(i)?;
    let _reserved = take_nibble(i)?;
    let _reserved = take_two_bits(i)?;
    let cog = take_u16(i)?;
    let sog = take_u16(i)?;
    Ok(
        CourseOverGround {
            sid,
            cog_reference: DirectionReference::from_u8(cog_reference),
            cog: Rad::new(cog),
            sog,
        },
    )
}

impl Message<CourseOverGround, COGSOGRapidUpdateFrame> for CourseOverGround {
    /// An eight-byte payload always holds a record.
    open spec fn decodes(
        frame: COGSOGRapidUpdateFrame,
        r: Result<CourseOverGround, NmeaError>,
    ) -> bool {
        r is Ok && course_over_ground_at(frame.data@, 0, r->Ok_0)
    }

    fn get_data(frame: COGSOGRapidUpdateFrame) -> (r: Result<CourseOverGround, NmeaError>) {
        let data = frame.data;
        let mut i = BitReader::new(data.as_slice());
        parse_course_over_ground(&mut i)
    }
}

/// A payload holds one COG & SOG record only: decoding it twice gives the same record.
pub proof fn lemma_course_over_ground_unique(
    data: Seq<u8>,
    s: int,
    x: CourseOverGround,
    y: CourseOverGround,
)
    requires
        course_over_ground_at(data, s, x),
        course_over_ground_at(data, s, y),
    ensures
        x == y,
{
    lemma_rad_view_injective(x.cog, y.cog);
}

} // verus!
