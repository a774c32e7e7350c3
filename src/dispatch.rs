//! Routing of incoming frames: single-frame messages are decoded at once, fast-packet
//! frames go to the reassembler of their source first.
use crate::course_over_ground::{course_over_ground_at, CourseOverGround};
use crate::fast_packet::{frame_outcome, frame_state, FastPacketReassembler};
use crate::navigation_data::{
    decode_navigation_data, navigation_at, navigation_data_bits, NavigationRecord,
};
use crate::nmea_frame::{COGSOGRapidUpdateFrame, SystemTimeFrame, VesselHeadingFrame};
use crate::pgn::{known_pgn, PGN};
use crate::system_time::{system_time_at, SystemTime};
use crate::vessel_heading::{vessel_heading_at, VesselHeading};
use crate::{Message, NmeaError, NmeaId};
use vstd::prelude::*;

verus! {

/// How the messages of a group travel.
#[derive(Clone, Copy, Debug, PartialEq, Eq, Structural)]
pub enum FrameClass {
    /// In one frame of eight bytes.
    Single,
    /// As a fast-packet series of frames.
    FastPacket,
}

/// How the messages of group `p` travel, for the groups that have a decoder here.
pub open spec fn frame_class_of(p: PGN) -> Option<FrameClass> {
    match p {
        PGN::SystemTime => Some(FrameClass::Single),
        PGN::VesselHeading => Some(FrameClass::Single),
        PGN::COGSOGRapidUpdate => Some(FrameClass::Single),
        PGN::NavigationData => Some(FrameClass::FastPacket),
        _ => None,
    }
}

/// How the messages of group `pgn` travel; `None` for a group without a decoder.
pub fn lookup(pgn: PGN) -> (r: Option<FrameClass>)
    ensures
        r == frame_class_of(pgn),
{
    match pgn {
        PGN::SystemTime => Some(FrameClass::Single),
        PGN::VesselHeading => Some(FrameClass::Single),
        PGN::COGSOGRapidUpdate => Some(FrameClass::Single),
        PGN::NavigationData => Some(FrameClass::FastPacket),
        _ => None,
    }
}

/// A decoded message, tagged by its group.
#[derive(Debug)]
pub enum DecodedMessage {
    SystemTime(SystemTime),
    VesselHeading(VesselHeading),
    COGSOGRapidUpdate(CourseOverGround),
    NavigationData(NavigationRecord),
}

/// Whether `m` is the message of group `p` that the payload `d` holds.
pub open spec fn decoded_as(p: PGN, d: Seq<u8>, m: DecodedMessage) -> bool {
    match m {
        DecodedMessage::SystemTime(t) => p == PGN::SystemTime && system_time_at(d, 0, t),
        DecodedMessage::VesselHeading(v) => p == PGN::VesselHeading && vessel_heading_at(d, 0, v),
        DecodedMessage::COGSOGRapidUpdate(c) => p == PGN::COGSOGRapidUpdate
            && course_over_ground_at(d, 0, c),
        DecodedMessage::NavigationData(n) => p == PGN::NavigationData && navigation_at(d, 0, n),
    }
}

/// What one frame led to.
#[derive(Debug)]
pub enum DispatchOutcome {
    /// A whole message.
    Decoded(DecodedMessage),
    /// A fast-packet frame was taken; more are due.
    Pending,
    /// The frame's group has no decoder here; it can be dropped.
    Unknown,
}

/// The group with number `n`, where it has a decoder here.
pub open spec fn decodable_group(n: nat) -> Option<PGN> {
    match known_pgn(n) {
        Some(p) => if frame_class_of(p) is Some {
            Some(p)
        } else {
            None
        },
        None => None,
    }
}

/// Decodes a stream of frames, keeping one reassembly per source address.
#[derive(Debug)]
pub struct Dispatcher {
    pub reassembler: FastPacketReassembler,
}

impl Dispatcher {
    /// The reassembler is well formed.
    pub open spec fn wf(&self) -> bool {
        self.reassembler.wf()
    }

    /// A dispatcher with no message in progress.
    pub fn new() -> (r: Dispatcher)
        ensures
            r.wf(),
            forall|j: int| 0 <= j < 256 ==> #[trigger] r.reassembler@[j] is None,
    {
        Dispatcher { reassembler: FastPacketReassembler::new() }
    }

    /// Routes one frame: `Unknown` for a group without a decoder; a single-frame
    /// message decoded at once; a fast-packet frame handed to the reassembly of its
    /// source, `Pending` until the message is whole and then decoded.
    pub fn dispatch(&mut self, id: &NmeaId, payload: &[u8; 8]) -> (r: Result<
        DispatchOutcome,
        NmeaError,
    >)
        requires
            old(self).wf(),
        ensures
            final(self).wf(),
            match decodable_group(id.pgn_spec()) {
                None => r is Ok && r->Ok_0 is Unknown && *final(self) == *old(self),
                Some(p) => if frame_class_of(p) == Some(FrameClass::Single) {
                    &&& *final(self) == *old(self)
                    &&& r is Ok && r->Ok_0 is Decoded
                    &&& decoded_as(p, payload@, r->Ok_0->Decoded_0)
                } else {
                    let s = id.sa_spec() as int;
                    let before = old(self).reassembler@[s];
                    &&& frame_state(before, payload@, final(self).reassembler@[s])
                    &&& forall|j: int|
                        0 <= j < 256 && j != s ==> #[trigger] final(self).reassembler@[j]
                            == old(self).reassembler@[j]
                    &&& match frame_outcome(before, payload@) {
                        Err(e) => r == Err::<DispatchOutcome, NmeaError>(e),
                        Ok(None) => r is Ok && r->Ok_0 is Pending,
                        Ok(Some(b)) => if 8 * b.len() >= navigation_data_bits() {
                            &&& r is Ok && r->Ok_0 is Decoded
                            &&& decoded_as(p, b, r->Ok_0->Decoded_0)
                        } else {
                            r == Err::<DispatchOutcome, NmeaError>(NmeaError::ParseError)
                        },
                    }
                },
            },
    {
        let pgn = match id.get_pgn() {
            Some(p) => p,
            None => return Ok(DispatchOutcome::Unknown),
        };
        match lookup(pgn) {
            None => Ok(DispatchOutcome::Unknown),
            Some(FrameClass::Single) => {
                let data = *payload;
                let m = match pgn {
                    PGN::SystemTime => {
                        let t = SystemTime::get_data(SystemTimeFrame { data })?;
                        DecodedMessage::SystemTime(t)
                    },
                    PGN::VesselHeading => {
                        let v = VesselHeading::get_data(VesselHeadingFrame { data })?;
                        DecodedMessage::VesselHeading(v)
                    },
                    _ => {
                        let c = CourseOverGround::get_data(COGSOGRapidUpdateFrame { data })?;
                        DecodedMessage::COGSOGRapidUpdate(c)
                    },
                };
                Ok(DispatchOutcome::Decoded(m))
            },
            Some(FrameClass::FastPacket) => {
                let source = (id.sa() % 256) as u8;
                match self.reassembler.ingest(source, payload) {
                    Ok(None) => Ok(DispatchOutcome::Pending),
                    Ok(Some(b)) => {
                        let n = decode_navigation_data(b.as_slice())?;
                        Ok(DispatchOutcome::Decoded(DecodedMessage::NavigationData(n)))
                    },
                    Err(e) => Err(e),
                }
            },
        }
    }
}

} // verus!
