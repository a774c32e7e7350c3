//! Decoding of NMEA 2000 messages carried in CAN-bus frames.
use crate::nmea_frame::{
    COGSOGRapidUpdateFrame, NavigationDataFrame, NmeaFrame, SystemTimeFrame, VesselHeadingFrame,
};
use crate::pgn::{known_pgn, PGN};
use vstd::prelude::*;

pub mod bearing_type;
pub mod course_over_ground;
pub mod dispatch;
pub mod fast_packet;
pub mod navigation_data;
pub mod nmea_frame;
pub mod parse;
pub mod pgn;
pub mod rad;
pub mod system_time;
pub mod vessel_heading;

verus! {

/// The 29-bit CAN arbitration identifier of an NMEA 2000 frame.
#[derive(Clone, Copy, Debug, PartialEq, Eq)]
pub struct NmeaId(pub u32);

/// A message that fits in one frame and decodes from its payload `S` into `T`.
pub trait Message<T, S>: Sized {
    /// Whether `r` is what decoding `data` gives.
    spec fn decodes(data: S, r: Result<T, NmeaError>) -> bool;

    /// Decodes a payload.
    fn get_data(data: S) -> (r: Result<T, NmeaError>)
        ensures
            Self::decodes(data, r),
    ;
}

/// A message sent as a series of frames `T`, kept in `Self` while it is reassembled
/// and then decoded in place.
pub trait FastPacketMessage<T, S>: Sized {
    /// The state that the methods keep.
    spec fn inv(&self) -> bool;

    /// Whether `after` and `r` are what taking `frame` into `before` gives.
    spec fn frame_taken(before: Self, frame: T, after: Self, r: Result<(), ()>) -> bool;

    /// Whether `after` and `r` are what decoding the message held by `before` gives.
    spec fn data_taken(before: Self, after: Self, r: Result<(), NmeaError>) -> bool;

    /// Decodes the message once all of its frames came in.
    fn get_data(&mut self) -> (r: Result<(), NmeaError>)
        requires
            old(self).inv(),
        ensures
            final(self).inv(),
            Self::data_taken(*old(self), *final(self), r),
    ;

    /// Takes one frame of the message.
    fn parse_frame(&mut self, frame: T) -> (r: Result<(), ()>)
        requires
            old(self).inv(),
        ensures
            final(self).inv(),
            Self::frame_taken(*old(self), frame, *final(self), r),
    ;
}

/// Why a frame or a payload could not be decoded.
#[derive(Clone, Copy, Debug, PartialEq, Eq, Structural)]
pub enum NmeaError {
    /// The payload does not hold the fields of its message.
    ParseError,
    /// The PGN has no decoder here.
    NotImplemented,
    /// The message is still waiting for more frames.
    NotFullyParsed,
    /// A fast-packet frame does not belong to the message in progress for its source.
    SequenceMismatch,
    /// A message in progress took too many frames and was dropped.
    Stale,
}

/// The two addressing layouts of a CAN identifier.
#[derive(Clone, Copy, Debug, PartialEq, Eq, Structural)]
pub enum NmeaPgnFormat {
    /// Destination-specific: the PDU-specific byte is a destination address.
    PDU1,
    /// Broadcast: the PDU-specific byte is the low byte of the PGN.
    PDU2,
}

/// The PGN that the fields of a CAN identifier stand for.
pub open spec fn pgn_of_fields(dp: nat, pf: nat, ps: nat) -> nat {
    if pf < 240 {
        dp * 0x10000 + pf * 0x100
    } else {
        dp * 0x10000 + pf * 0x100 + ps
    }
}

impl NmeaId {
    /// The priority, bits 28 to 26.
    pub open spec fn priority_spec(self) -> nat {
        (self.0 as nat / 0x4000000) % 8
    }

    /// The data page, bits 25 and 24.
    pub open spec fn data_page_spec(self) -> nat {
        (self.0 as nat / 0x1000000) % 4
    }

    /// The PDU format, bits 23 to 16.
    pub open spec fn pf_spec(self) -> nat {
        (self.0 as nat / 0x10000) % 0x100
    }

    /// The PDU-specific byte, bits 15 to 8.
    pub open spec fn ps_spec(self) -> nat {
        (self.0 as nat / 0x100) % 0x100
    }

    /// The source address, bits 7 to 0.
    pub open spec fn sa_spec(self) -> nat {
        self.0 as nat % 0x100
    }

    /// The raw PGN of this identifier.
    pub open spec fn pgn_spec(self) -> nat {
        pgn_of_fields(self.data_page_spec(), self.pf_spec(), self.ps_spec())
    }

    pub fn from_raw(id: u32) -> (r: NmeaId)
        ensures
            r.0 == id,
    {
        NmeaId(id)
    }

    pub fn priority_bit(&self) -> (r: u32)
        ensures
            r == self.priority_spec(),
    {
        (self.0 / 0x4000000) % 8
    }

    pub fn reserved_data_page(&self) -> (r: u32)
        ensures
            r == self.data_page_spec(),
    {
        (self.0 / 0x1000000) % 4
    }

    pub fn pf(&self) -> (r: u32)
        ensures
            r == self.pf_spec(),
    {
        (self.0 / 0x10000) % 0x100
    }

    pub fn ps(&self) -> (r: u32)
        ensures
            r == self.ps_spec(),
    {
        (self.0 / 0x100) % 0x100
    }

    pub fn sa(&self) -> (r: u32)
        ensures
            r == self.sa_spec(),
    {
        self.0 % 0x100
    }

    /// PDU1 when the PDU format is below 240, PDU2 otherwise.
    pub fn get_format(&self) -> (r: NmeaPgnFormat)
        ensures
            r == (if self.pf_spec() < 240 { NmeaPgnFormat::PDU1 } else { NmeaPgnFormat::PDU2 }),
    {
        if self.pf() < 240 {
            NmeaPgnFormat::PDU1
        } else {
            NmeaPgnFormat::PDU2
        }
    }

    /// The PGN: data page and PDU format, and for PDU2 the PDU-specific byte as low byte.
    pub fn get_raw_pgn(&self) -> (r: u32)
        ensures
            r == self.pgn_spec(),
    {
        let dp = self.reserved_data_page();
        let pf = self.pf();
        match self.get_format() {
            NmeaPgnFormat::PDU1 => dp * 0x10000 + pf * 0x100,
            NmeaPgnFormat::PDU2 => dp * 0x10000 + pf * 0x100 + self.ps(),
        }
    }

    /// The known group of this identifier's PGN, if any.
    pub fn get_pgn(&self) -> (r: Option<PGN>)
        ensures
            r == known_pgn(self.pgn_spec()),
    {
        PGN::from_u32(self.get_raw_pgn())
    }

    /// Tags the first eight bytes of `data` with the message that this identifier
    /// announces: `NotImplemented` for a group without a decoder here, `ParseError`
    /// when `data` is shorter than a frame.
    pub fn parse_data(&self, data: &[u8]) -> (r: Result<NmeaFrame, NmeaError>)
        ensures
            match r {
                Ok(f) => data@.len() >= 8 && frame_holds(self.pgn_spec(), data@.subrange(0, 8), f),
                Err(e) => if has_frame_decoder(self.pgn_spec()) {
                    data@.len() < 8 && e == NmeaError::ParseError
                } else {
                    e == NmeaError::NotImplemented
                },
            },
    {
        let pgn = self.get_pgn();
        match pgn {
            Some(PGN::SystemTime) => {
                let data = first_eight(data)?;
                Ok(NmeaFrame::SystemTime(SystemTimeFrame { data }))
            },
            Some(PGN::VesselHeading) => {
                let data = first_eight(data)?;
                Ok(NmeaFrame::VesselHeading(VesselHeadingFrame { data }))
            },
            Some(PGN::NavigationData) => {
                let data = first_eight(data)?;
                Ok(NmeaFrame::NavigationData(NavigationDataFrame { data }))
            },
            Some(PGN::COGSOGRapidUpdate) => {
                let data = first_eight(data)?;
                Ok(NmeaFrame::COGSOGRapidUpdate(COGSOGRapidUpdateFrame { data }))
            },
            _ => Err(NmeaError::NotImplemented),
        }
    }
}

/// Whether the PGN `n` is one whose frames `parse_data` tags.
pub open spec fn has_frame_decoder(n: nat) -> bool {
    n == PGN::SystemTime.number_spec() || n == PGN::VesselHeading.number_spec() || n
        == PGN::NavigationData.number_spec() || n == PGN::COGSOGRapidUpdate.number_spec()
}

/// Whether `f` is the payload `d` tagged as a frame of PGN `n`.
pub open spec fn frame_holds(n: nat, d: Seq<u8>, f: NmeaFrame) -> bool {
    match f {
        NmeaFrame::SystemTime(x) => n == PGN::SystemTime.number_spec() && x.data@ == d,
        NmeaFrame::VesselHeading(x) => n == PGN::VesselHeading.number_spec() && x.data@ == d,
        NmeaFrame::NavigationData(x) => n == PGN::NavigationData.number_spec() && x.data@ == d,
        NmeaFrame::COGSOGRapidUpdate(x) => n == PGN::COGSOGRapidUpdate.number_spec() && x.data@
            == d,
    }
}

/// The first eight bytes of `data`; `ParseError` when there are fewer.
fn first_eight(data: &[u8]) -> (r: Result<[u8; 8], NmeaError>)
    ensures
        match r {
            Ok(a) => data@.len() >= 8 && a@ == data@.subrange(0, 8),
            Err(e) => data@.len() < 8 && e == NmeaError::ParseError,
        },
{
    if data.len() < 8 {
        return Err(NmeaError::ParseError);
    }
    let a: [u8; 8] = [data[0], data[1], data[2], data[3], data[4], data[5], data[6], data[7]];
    assert(a@ =~= data@.subrange(0, 8));
    Ok(a)
}

} // verus!