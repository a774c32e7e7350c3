//! The Vessel Heading message: heading, deviation and variation.
use crate::nmea_frame::VesselHeadingFrame;
use crate::parse::{
    field_value, signed_value, take_byte, take_i16, take_two_bits, take_u16, BitReader,
};
use crate::rad::{lemma_rad_view_injective, Rad};
use crate::{Message, NmeaError};
use vstd::prelude::*;

verus! {

/// What a direction is measured against.
#[derive(Clone, Copy, Debug, PartialEq, Eq, Structural)]
pub enum DirectionReference {
    True,
    Magnetic,
    /// The sender reports an error; a value of its own, not a failure to decode.
    Error,
}

/// The reference that a raw 2-bit value stands for; 0 stands for none.
pub open spec fn direction_reference_of(v: nat) -> Option<DirectionReference> {
    if v == 1 {
        Some(DirectionReference::True)
    } else if v == 2 {
        Some(DirectionReference::Magnetic)
    } else if v == 3 {
        Some(DirectionReference::Error)
    } else {
        None
    }
}

impl DirectionReference {
    /// The reference of a raw field value.
    pub fn from_u8(v: u8) -> (r: Option<DirectionReference>)
        ensures
            r == direction_reference_of(v as nat),
    {
        if v == 1 {
            Some(DirectionReference::True)
        } else if v == 2 {
            Some(DirectionReference::Magnetic)
        } else if v == 3 {
            Some(DirectionReference::Error)
        } else {
            None
        }
    }
}

/// A decoded Vessel Heading message; angles in ten-thousandths of a radian.
#[derive(Debug)]
pub struct VesselHeading {
    pub sid: u8,
    pub heading: Rad,
    pub deviation: Rad,
    pub variation: Rad,
    pub reference: Option<DirectionReference>,
}

/// The number of bits that a Vessel Heading record takes.
pub open spec fn vessel_heading_bits() -> nat {
    58
}

/// Whether `v` is the Vessel Heading record laid out in `data` from bit `s` on:
/// sid (8), heading (16), deviation (16, signed), variation (16, signed), reference (2).
pub open spec fn vessel_heading_at(data: Seq<u8>, s: int, v: VesselHeading) -> bool {
    &&& v.sid == field_value(data, s, 8)
    &&& v.heading@ == field_value(data, s + 8, 16)
    &&& v.deviation@ == signed_value(field_value(data, s + 24, 16), 16)
    &&& v.variation@ == signed_value(field_value(data, s + 40, 16), 16)
    &&& v.reference == direction_reference_of(field_value(data, s + 56, 2))
}

impl VesselHeading {
    /// A record with a true heading of zero.
    pub fn new() -> (r: VesselHeading)
        ensures
            r.sid == 0,
            r.heading@ == 0,
            r.deviation@ == 0,
            r.variation@ == 0,
            r.reference == Some(DirectionReference::True),
    {
        VesselHeading {
            sid: 0,
            reference: Some(DirectionReference::True),
            heading: Rad::new(0),
            deviation: Rad::from_i16(0),
            variation: Rad::from_i16(0),
        }
    }
}

/// Reads a Vessel Heading record at the cursor; `ParseError` when too few bits are left.
pub fn parse_vessel_heading(i: &mut BitReader) -> (r: Result<VesselHeading, NmeaError>)
    requires
        old(i).pos + 128 <= usize::MAX,
    ensures
        final(i).data == old(i).data,
        r is Ok <==> old(i).has_bits(vessel_heading_bits()),
        r is Ok ==> vessel_heading_at(old(i).data@, old(i).pos as int, r->Ok_0)
            && final(i).pos == old(i).pos + vessel_heading_bits(),
        r is Err ==> r->Err_0 == NmeaError::ParseError,
{
    let sid = take_byte(i)?;
    let heading = take_u16(i)?;
    let deviation = take_i16(i)?;
    let variation = take_i16(i)?;
    let reference = take_two_bits(i)?;
    Ok(
        VesselHeading {
            sid,
            heading: Rad::new(heading),
            deviation: Rad::from_i16(deviation),
            variation: Rad::from_i16(variation),
            reference: DirectionReference::from_u8(reference),
        },
    )
}

impl Message<VesselHeading, VesselHeadingFrame> for VesselHeading {
    /// An eight-byte payload always holds a record.
    open spec fn decodes(frame: VesselHeadingFrame, r: Result<VesselHeading, NmeaError>) -> bool {
        r is Ok && vessel_heading_at(frame.data@, 0, r->Ok_0)
    }

    fn get_data(frame: VesselHeadingFrame) -> (r: Result<VesselHeading, NmeaError>) {
        let data = frame.data;
        let mut i = BitReader::new(data.as_slice());
        parse_vessel_heading(&mut i)
    }
}

/// A payload holds one Vessel Heading record only: decoding it twice gives the same record.
pub proof fn lemma_vessel_heading_unique(data: Seq<u8>, s: int, x: VesselHeading, y: VesselHeading)
    requires
        vessel_heading_at(data, s, x),
        vessel_heading_at(data, s, y),
    ensures
        x == y,
{
    lemma_rad_view_injective(x.heading, y.heading);
    lemma_rad_view_injective(x.deviation, y.deviation);
    lemma_rad_view_injective(x.variation, y.variation);
}

} // verus!
