//! The Navigation Data message: where the current leg of a route leads. It is sent
//! as a fast-packet message, so it is decoded from a reassembled payload.
use crate::bearing_type::{bearing_type_of, BearingType};
use crate::fast_packet::{frame_outcome, frame_state, take_frame, ReassemblyBuffer};
use crate::nmea_frame::NavigationDataFrame;
use crate::parse::{field_value, lemma_fields_agree, take_byte, take_two_bits, take_u16, take_u32, BitReader};
use crate::rad::{lemma_rad_view_injective, Rad};
use crate::system_time::lemma_time_view_injective;
pub use crate::system_time::Time;
use crate::vessel_heading::{direction_reference_of, DirectionReference};
use crate::{FastPacketMessage, NmeaError};
use vstd::prelude::*;

verus! {

/// A decoded Navigation Data message.
#[derive(Clone, Copy, Debug)]
pub struct NavigationRecord {
    pub sid: u8,
    /// In units of 0.01 m.
    pub distance_to_waypoint: u32,
    pub course_bearing_reference: Option<DirectionReference>,
    pub perpindicular_crossed: bool,
    pub arrival_circle_entered: bool,
    pub calculation_type: Option<BearingType>,
    pub eta_time: Time,
    /// Days since 1970-01-01.
    pub eta_date: u16,
    pub bearing_origin_to_destination_waypoint: Rad,
    pub bearing_origin_to_waypoint: Rad,
    pub origin_waypoint_number: u32,
    pub destination_waypoint_number: u32,
    pub destination_latitude: u32,
    pub destination_longitude: u32,
    /// In units of 0.01 m/s.
    pub waypoint_closing_velocity: u16,
}

/// The number of bits that a Navigation Data record takes.
pub open spec fn navigation_data_bits() -> nat {
    272
}

/// Whether `n` is the Navigation Data record laid out in `data` from bit `s` on:
/// sid (8), distance (32), bearing reference (2), perpendicular crossed (2), arrival
/// circle entered (2), calculation type (2), ETA time (32), ETA date (16), bearing
/// origin to destination (16), bearing position to destination (16), origin waypoint
/// (32), destination waypoint (32), latitude (32), longitude (32), closing velocity (16).
pub open spec fn navigation_at(data: Seq<u8>, s: int, n: NavigationRecord) -> bool {
    &&& n.sid == field_value(data, s, 8)
    &&& n.distance_to_waypoint == field_value(data, s + 8, 32)
    &&& n.course_bearing_reference == direction_reference_of(field_value(data, s + 40, 2))
    &&& n.perpindicular_crossed == (field_value(data, s + 42, 2) == 1)
    &&& n.arrival_circle_entered == (field_value(data, s + 44, 2) == 1)
    &&& n.calculation_type == bearing_type_of(field_value(data, s + 46, 2))
    &&& n.eta_time@ == field_value(data, s + 48, 32)
    &&& n.eta_date == field_value(data, s + 80, 16)
    &&& n.bearing_origin_to_destination_waypoint@ == field_value(data, s + 96, 16)
    &&& n.bearing_origin_to_waypoint@ == field_value(data, s + 112, 16)
    &&& n.origin_waypoint_number == field_value(data, s + 128, 32)
    &&& n.destination_waypoint_number == field_value(data, s + 160, 32)
    &&& n.destination_latitude == field_value(data, s + 192, 32)
    &&& n.destination_longitude == field_value(data, s + 224, 32)
    &&& n.waypoint_closing_velocity == field_value(data, s + 256, 16)
}

/// Reads a Navigation Data record at the cursor; `ParseError` when too few bits are left.
pub fn parse_navigation_record(i: &mut BitReader) -> (r: Result<NavigationRecord, NmeaError>)
    requires
        old(i).pos + 512 <= usize::MAX,
    ensures
        final(i).data == old(i).data,
        r is Ok <==> old(i).has_bits(navigation_data_bits()),
        r is Ok ==> navigation_at(old(i).data@, old(i).pos as int, r->Ok_0) && final(i).pos
            == old(i).pos + navigation_data_bits(),
        r is Err ==> r->Err_0 == NmeaError::ParseError,
{
    let sid = take_byte(i)?;
    let distance_to_waypoint = take_u32(i)?;
    let course_bearing_reference = take_two_bits(i)?;
    let perpindicular_crossed = take_two_bits(i)?;
    let arrival_circle_entered = take_two_bits(i)?;
    let calculation_type = take_two_bits(i)?;
    let eta_time = take_u32(i)?;
    let eta_date = take_u16(i)?;
    let bearing_origin_to_destination_waypoint = take_u16(i)?;
    let bearing_origin_to_waypoint = take_u16(i)?;
    let origin_waypoint_number = take_u32(i)?;
    let destination_waypoint_number = take_u32(i)?;
    let destination_latitude = take_u32(i)?;
    let destination_longitude = take_u32(i)?;
    let waypoint_closing_velocity = take_u16(i)?;
    Ok(
        NavigationRecord {
            sid,
            distance_to_waypoint,
            course_bearing_reference: DirectionReference::from_u8(course_bearing_reference),
            perpindicular_crossed: perpindicular_crossed == 1,
            arrival_circle_entered: arrival_circle_entered == 1,
            calculation_type: BearingType::from_u8(calculation_type),
            eta_time: Time::new(eta_time),
            eta_date,
            bearing_origin_to_destination_waypoint: Rad::new(
                bearing_origin_to_destination_waypoint,
            ),
            bearing_origin_to_waypoint: Rad::new(bearing_origin_to_waypoint),
            origin_waypoint_number,
            destination_waypoint_number,
            destination_latitude,
            destination_longitude,
            waypoint_closing_velocity,
        },
    )
}

/// Decodes a whole reassembled payload: `ParseError` when it is shorter than a record.
pub fn decode_navigation_data(payload: &[u8]) -> (r: Result<NavigationRecord, NmeaError>)
    ensures
        r is Ok <==> 8 * payload@.len() >= navigation_data_bits(),
        r is Ok ==> navigation_at(payload@, 0, r->Ok_0),
        r is Err ==> r->Err_0 == NmeaError::ParseError,
{
    let mut i = BitReader::new(payload);
    parse_navigation_record(&mut i)
}

/// A payload holds one Navigation Data record only: decoding it twice gives the same record.
pub proof fn lemma_navigation_unique(data: Seq<u8>, s: int, x: NavigationRecord, y: NavigationRecord)
    requires
        navigation_at(data, s, x),
        navigation_at(data, s, y),
    ensures
        x == y,
{
    lemma_time_view_injective(x.eta_time, y.eta_time);
    lemma_rad_view_injective(
        x.bearing_origin_to_destination_waypoint,
        y.bearing_origin_to_destination_waypoint,
    );
    lemma_rad_view_injective(x.bearing_origin_to_waypoint, y.bearing_origin_to_waypoint);
}

/// A Navigation Data record reads the first 34 bytes of a payload and nothing else: a
/// reassembled payload and any longer buffer that starts with it decode alike.
pub proof fn lemma_navigation_reads_its_bytes_only(a: Seq<u8>, b: Seq<u8>, n: NavigationRecord)
    requires
        a.len() >= 34,
        b.len() >= 34,
        a.subrange(0, 34) == b.subrange(0, 34),
        navigation_at(a, 0, n),
    ensures
        navigation_at(b, 0, n),
{
    lemma_fields_agree(a, b, 34, 0, 8);
    lemma_fields_agree(a, b, 34, 8, 32);
    lemma_fields_agree(a, b, 34, 40, 2);
    lemma_fields_agree(a, b, 34, 42, 2);
    lemma_fields_agree(a, b, 34, 44, 2);
    lemma_fields_agree(a, b, 34, 46, 2);
    lemma_fields_agree(a, b, 34, 48, 32);
    lemma_fields_agree(a, b, 34, 80, 16);
    lemma_fields_agree(a, b, 34, 96, 16);
    lemma_fields_agree(a, b, 34, 112, 16);
    lemma_fields_agree(a, b, 34, 128, 32);
    lemma_fields_agree(a, b, 34, 160, 32);
    lemma_fields_agree(a, b, 34, 192, 32);
    lemma_fields_agree(a, b, 34, 224, 32);
    lemma_fields_agree(a, b, 34, 256, 16);
}

/// A Navigation Data message: its frames while they come in, and the fields of the
/// last message decoded.
#[derive(Debug)]
pub struct NavigationData {
    /// The payload of the last message whose frames all came in; empty before that.
    pub payload: Vec<u8>,
    /// The message whose frames are coming in, if any.
    pub assembly: Option<ReassemblyBuffer>,
    pub sid: Option<u8>,
    pub distance_to_waypoint: Option<u32>,
    pub course_bearing_reference: Option<DirectionReference>,
    pub perpindicular_crossed: Option<bool>,
    pub arrival_circle_entered: Option<bool>,
    pub calculation_type: Option<BearingType>,
    pub eta_time: Option<Time>,
    pub eta_date: Option<u16>,
    pub bearing_origin_to_destination_waypoint: Option<Rad>,
    pub bearing_origin_to_waypoint: Option<Rad>,
    pub origin_waypoint_number: Option<u32>,
    pub destination_waypoint_number: Option<u32>,
    pub destination_latitude: Option<u32>,
    pub destination_longitude: Option<u32>,
    /// In units of 0.01 m/s.
    pub waypoint_closing_velocity: Option<u16>,
}

impl NavigationData {
    /// The payload of the last message whose frames all came in; empty before that.
    pub open spec fn payload_spec(&self) -> Seq<u8> {
        self.payload@
    }

    /// The message whose frames are coming in, if any.
    pub open spec fn assembly_spec(&self) -> Option<ReassemblyBuffer> {
        self.assembly
    }

    /// The message in progress is well formed.
    pub open spec fn wf(&self) -> bool {
        self.assembly is Some ==> self.assembly->Some_0.wf()
    }

    /// Whether the decoded fields of `self` and `o` are the same.
    pub open spec fn same_fields(&self, o: NavigationData) -> bool {
        &&& self.sid == o.sid
        &&& self.distance_to_waypoint == o.distance_to_waypoint
        &&& self.course_bearing_reference == o.course_bearing_reference
        &&& self.perpindicular_crossed == o.perpindicular_crossed
        &&& self.arrival_circle_entered == o.arrival_circle_entered
        &&& self.calculation_type == o.calculation_type
        &&& self.eta_time == o.eta_time
        &&& self.eta_date == o.eta_date
        &&& self.bearing_origin_to_destination_waypoint == o.bearing_origin_to_destination_waypoint
        &&& self.bearing_origin_to_waypoint == o.bearing_origin_to_waypoint
        &&& self.origin_waypoint_number == o.origin_waypoint_number
        &&& self.destination_waypoint_number == o.destination_waypoint_number
        &&& self.destination_latitude == o.destination_latitude
        &&& self.destination_longitude == o.destination_longitude
        &&& self.waypoint_closing_velocity == o.waypoint_closing_velocity
    }

    /// Whether the fields of `self` hold the record `n`.
    pub open spec fn shows(&self, n: NavigationRecord) -> bool {
        &&& self.sid == Some(n.sid)
        &&& self.distance_to_waypoint == Some(n.distance_to_waypoint)
        &&& self.course_bearing_reference == n.course_bearing_reference
        &&& self.perpindicular_crossed == Some(n.perpindicular_crossed)
        &&& self.arrival_circle_entered == Some(n.arrival_circle_entered)
        &&& self.calculation_type == n.calculation_type
        &&& self.eta_time == Some(n.eta_time)
        &&& self.eta_date == Some(n.eta_date)
        &&& self.bearing_origin_to_destination_waypoint == Some(
            n.bearing_origin_to_destination_waypoint,
        )
        &&& self.bearing_origin_to_waypoint == Some(n.bearing_origin_to_waypoint)
        &&& self.origin_waypoint_number == Some(n.origin_waypoint_number)
        &&& self.destination_waypoint_number == Some(n.destination_waypoint_number)
        &&& self.destination_latitude == Some(n.destination_latitude)
        &&& self.destination_longitude == Some(n.destination_longitude)
        &&& self.waypoint_closing_velocity == Some(n.waypoint_closing_velocity)
    }

    /// Nothing received and nothing decoded.
    pub fn new() -> (r: NavigationData)
        ensures
            r.wf(),
            r.payload_spec().len() == 0,
            r.assembly_spec() is None,
            r.sid is None && r.distance_to_waypoint is None && r.course_bearing_reference is None
                && r.perpindicular_crossed is None && r.arrival_circle_entered is None
                && r.calculation_type is None && r.eta_time is None && r.eta_date is None
                && r.bearing_origin_to_destination_waypoint is None
                && r.bearing_origin_to_waypoint is None && r.origin_waypoint_number is None
                && r.destination_waypoint_number is None && r.destination_latitude is None
                && r.destination_longitude is None && r.waypoint_closing_velocity is None,
    {
        NavigationData {
            payload: Vec::new(),
            assembly: None,
            sid: None,
            distance_to_waypoint: None,
            course_bearing_reference: None,
            perpindicular_crossed: None,
            arrival_circle_entered: None,
            calculation_type: None,
            eta_time: None,
            eta_date: None,
            bearing_origin_to_destination_waypoint: None,
            bearing_origin_to_waypoint: None,
            origin_waypoint_number: None,
            destination_waypoint_number: None,
            destination_latitude: None,
            destination_longitude: None,
            waypoint_closing_velocity: None,
        }
    }

    /// Decodes the payload of the last finished message into the fields; on
    /// `ParseError`, when the payload is shorter than a record, nothing changes.
    pub fn parse_navigation_data(&mut self) -> (r: Result<(), NmeaError>)
        ensures
            final(self).payload_spec() == old(self).payload_spec(),
            final(self).assembly_spec() == old(self).assembly_spec(),
            r is Ok <==> 8 * old(self).payload_spec().len() >= navigation_data_bits(),
            r is Ok ==> exists|n: NavigationRecord|
                navigation_at(old(self).payload_spec(), 0, n) && #[trigger] final(self).shows(n),
            r is Err ==> r->Err_0 == NmeaError::ParseError && *final(self) == *old(self),
    {
        let n = decode_navigation_data(self.payload.as_slice())?;
        self.sid = Some(n.sid);
        self.distance_to_waypoint = Some(n.distance_to_waypoint);
        self.course_bearing_reference = n.course_bearing_reference;
        self.perpindicular_crossed = Some(n.perpindicular_crossed);
        self.arrival_circle_entered = Some(n.arrival_circle_entered);
        self.calculation_type = n.calculation_type;
        self.eta_time = Some(n.eta_time);
        self.eta_date = Some(n.eta_date);
        self.bearing_origin_to_destination_waypoint = Some(n.bearing_origin_to_destination_waypoint);
        self.bearing_origin_to_waypoint = Some(n.bearing_origin_to_waypoint);
        self.origin_waypoint_number = Some(n.origin_waypoint_number);
        self.destination_waypoint_number = Some(n.destination_waypoint_number);
        self.destination_latitude = Some(n.destination_latitude);
        self.destination_longitude = Some(n.destination_longitude);
        self.waypoint_closing_velocity = Some(n.waypoint_closing_velocity);
        assert(self.shows(n));
        Ok(())
    }
}

impl FastPacketMessage<NavigationDataFrame, Seq<u8>> for NavigationData {
    open spec fn inv(&self) -> bool {
        self.wf()
    }

    /// A first frame opens a message; the frame that completes one makes its payload
    /// the one to decode. A frame that belongs to no message in progress, or one that
    /// took too many frames, is refused with `Err(())`. The decoded fields stay as they were.
    open spec fn frame_taken(
        before: NavigationData,
        frame: NavigationDataFrame,
        after: NavigationData,
        r: Result<(), ()>,
    ) -> bool {
        let o = frame_outcome(before.assembly_spec(), frame.data@);
        &&& frame_state(before.assembly_spec(), frame.data@, after.assembly_spec())
        &&& after.payload_spec() == (match o {
            Ok(Some(p)) => p,
            _ => before.payload_spec(),
        })
        &&& (r is Ok <==> o is Ok)
        &&& after.same_fields(before)
    }

    /// Fails with `NotFullyParsed` while no message has come in whole, and with
    /// `ParseError` when the one that did is shorter than a record; else the fields
    /// hold the record.
    open spec fn data_taken(
        before: NavigationData,
        after: NavigationData,
        r: Result<(), NmeaError>,
    ) -> bool {
        &&& after.payload_spec() == before.payload_spec()
        &&& after.assembly_spec() == before.assembly_spec()
        &&& if before.payload_spec().len() == 0 {
            r == Err::<(), NmeaError>(NmeaError::NotFullyParsed) && after == before
        } else if 8 * before.payload_spec().len() < navigation_data_bits() {
            r == Err::<(), NmeaError>(NmeaError::ParseError) && after == before
        } else {
            r is Ok && exists|n: NavigationRecord|
                navigation_at(before.payload_spec(), 0, n) && #[trigger] after.shows(n)
        }
    }

    fn get_data(&mut self) -> (r: Result<(), NmeaError>) {
        if self.payload.len() == 0 {
            return Err(NmeaError::NotFullyParsed);
        }
        self.parse_navigation_data()
    }

    fn parse_frame(&mut self, frame: NavigationDataFrame) -> (r: Result<(), ()>) {
        let data = frame.data;
        match take_frame(&mut self.assembly, &data) {
            Ok(Some(p)) => {
                self.payload = p;
                Ok(())
            },
            Ok(None) => Ok(()),
            Err(_) => Err(()),
        }
    }
}

} // verus!
