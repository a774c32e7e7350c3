use nmea2000::bearing_type::BearingType;
use nmea2000::course_over_ground::{parse_course_over_ground, CourseOverGround};
use nmea2000::dispatch::{lookup, DecodedMessage, DispatchOutcome, Dispatcher, FrameClass};
use nmea2000::fast_packet::{FastPacketReassembler, MAX_FRAMES};
use nmea2000::navigation_data::{decode_navigation_data, NavigationData};
use nmea2000::nmea_frame::{NmeaFrame, SystemTimeFrame, VesselHeadingFrame};
use nmea2000::parse::{
    take_bit, take_byte, take_five_bits, take_i16, take_i32, take_nibble, take_three_bits,
    take_two_bits, take_u16, take_u32, BitReader,
};
use nmea2000::pgn::PGN;
use nmea2000::rad::Rad;
use nmea2000::system_time::{parse_system_time, SystemTime, SystemTimeSource, Time};
use nmea2000::vessel_heading::{parse_vessel_heading, DirectionReference, VesselHeading};
use nmea2000::{FastPacketMessage, Message, NmeaError, NmeaId, NmeaPgnFormat};

const NAV_FRAMES: [[u8; 8]; 6] = [
    [64, 34, 204, 55, 29, 16, 0, 0],
    [65, 48, 87, 21, 39, 170, 76, 255],
    [66, 255, 255, 255, 255, 255, 255, 255],
    [67, 0, 0, 0, 0, 255, 255, 255],
    [68, 127, 255, 255, 255, 127, 141, 0],
    [128, 34, 206, 232, 117, 25, 0, 0],
];

/// The CAN identifier of a Navigation Data frame from source `sa`.
fn navigation_id(sa: u32) -> NmeaId {
    NmeaId((1 << 24) | (0xF9 << 16) | (0x04 << 8) | sa)
}

#[test]
fn identifier_fields_and_pdu2_pgn() {
    let id = NmeaId::from_raw(0b01101111100000001000000000000);
    assert_eq!(id.priority_bit(), 3);
    assert_eq!(id.reserved_data_page(), 1);
    assert_eq!(id.pf(), 240);
    assert_eq!(id.ps(), 16);
    assert_eq!(id.sa(), 0);
    assert_eq!(id.get_format(), NmeaPgnFormat::PDU2);
    assert_eq!(id.get_raw_pgn(), 126992);
    assert_eq!(id.get_raw_pgn(), id.get_raw_pgn());
}

#[test]
fn pdu1_pgn_leaves_out_the_destination() {
    // Data page 0, PDU format 0xEA (below 240), destination 0x55, source 0x21.
    let id = NmeaId((6 << 26) | (0xEA << 16) | (0x55 << 8) | 0x21);
    assert_eq!(id.get_format(), NmeaPgnFormat::PDU1);
    assert_eq!(id.priority_bit(), 6);
    assert_eq!(id.sa(), 0x21);
    assert_eq!(id.get_raw_pgn(), 0xEA00);
    assert_eq!(id.get_pgn(), None);
}

#[test]
fn pgn_numbers_round_trip() {
    for p in [
        PGN::SystemTime,
        PGN::VesselHeading,
        PGN::NavigationData,
        PGN::GNSSPositionData,
        PGN::COGSOGRapidUpdate,
        PGN::PositionRapidUpdate,
        PGN::GNSSSatsInView,
        PGN::WindData,
        PGN::ISOAddressClaim,
    ] {
        assert_eq!(PGN::from_u32(p.number()), Some(p));
    }
    assert_eq!(PGN::ISOAddressClaim.number(), 60928);
    assert_eq!(PGN::from_u32(12345), None);
}

#[test]
fn sixteen_bit_field_of_all_ones() {
    let data = [0xFFu8, 0xFF];
    let mut r = BitReader::new(&data);
    assert_eq!(take_u16(&mut r), Ok(65535));
    assert_eq!(r.pos, 16);
}

#[test]
fn multi_byte_fields_are_little_endian() {
    let data = [0x34u8, 0x12, 0x78, 0x56, 0x34, 0x12];
    let mut r = BitReader::new(&data);
    assert_eq!(take_u16(&mut r), Ok(0x1234));
    assert_eq!(take_u32(&mut r), Ok(0x12345678));
    let data = [0xFEu8, 0xFF, 0x00, 0x80, 0xFF, 0xFF, 0xFF, 0xFF];
    let mut r = BitReader::new(&data);
    assert_eq!(take_i16(&mut r), Ok(-2));
    assert_eq!(take_i16(&mut r), Ok(-32768));
    assert_eq!(take_i32(&mut r), Ok(-1));
}

#[test]
fn sub_byte_fields_read_most_significant_first() {
    // 101 10110 | 1 0 11 0110
    let data = [0b1011_0110u8, 0b1011_0110];
    let mut r = BitReader::new(&data);
    assert_eq!(take_three_bits(&mut r), Ok(0b101));
    assert_eq!(take_five_bits(&mut r), Ok(0b10110));
    assert_eq!(take_bit(&mut r), Ok(true));
    assert_eq!(take_bit(&mut r), Ok(false));
    assert_eq!(take_two_bits(&mut r), Ok(0b11));
    assert_eq!(take_nibble(&mut r), Ok(0b0110));
    assert_eq!(r.pos, 16);
}

#[test]
fn fields_cross_byte_boundaries() {
    let data = [0b0000_1111u8, 0b1100_0000];
    let mut r = BitReader::new(&data);
    assert_eq!(take_nibble(&mut r), Ok(0));
    assert_eq!(r.take_bits(6), Ok(0b111111));
    assert_eq!(r.take_signed_bits(3), Ok(0));
    let data = [0b1110_0000u8];
    let mut r = BitReader::new(&data);
    assert_eq!(r.take_signed_bits(3), Ok(-1));
    assert_eq!(r.take_signed_bits(5), Ok(0));
}

#[test]
fn too_few_bits_is_a_parse_error() {
    let data = [0xABu8];
    let mut r = BitReader::new(&data);
    assert_eq!(take_u16(&mut r), Err(NmeaError::ParseError));
    assert_eq!(r.pos, 0);
    assert_eq!(take_byte(&mut r), Ok(0xAB));
    assert_eq!(take_bit(&mut r), Err(NmeaError::ParseError));
    assert_eq!(r.pos, 8);
    let empty: [u8; 0] = [];
    let mut r = BitReader::new(&empty);
    assert_eq!(r.take_bits(1), Err(NmeaError::ParseError));
}

#[test]
fn short_payloads_do_not_decode() {
    let data = [1u8, 2, 3, 4, 5];
    let mut r = BitReader::new(&data);
    assert!(parse_vessel_heading(&mut r).is_err());
    let mut r = BitReader::new(&data);
    assert!(parse_system_time(&mut r).is_err());
    let mut r = BitReader::new(&data);
    assert!(parse_course_over_ground(&mut r).is_err());
    assert!(matches!(decode_navigation_data(&[0u8; 33]), Err(NmeaError::ParseError)));
    assert!(decode_navigation_data(&[0u8; 34]).is_ok());
}

#[test]
fn system_time_fields() {
    let t = SystemTime::get_data(SystemTimeFrame { data: [46, 255, 169, 76, 48, 180, 171, 1] })
        .unwrap();
    assert_eq!(t.sid, 46);
    // A source nibble of 15 stands for no known clock.
    assert_eq!(t.source, None);
    let t = SystemTime::get_data(SystemTimeFrame { data: [7, 0x2F, 1, 0, 0x10, 0x27, 0, 0] })
        .unwrap();
    assert_eq!(t.source, Some(SystemTimeSource::RadioStation));
    assert_eq!(t.date, 1);
    assert_eq!(t.time.get_seconds(), 1);
    assert_eq!(Time::new(29999).get_seconds(), 2);
}

#[test]
fn enumerations_from_raw_values() {
    assert_eq!(DirectionReference::from_u8(0), None);
    assert_eq!(DirectionReference::from_u8(1), Some(DirectionReference::True));
    assert_eq!(DirectionReference::from_u8(2), Some(DirectionReference::Magnetic));
    assert_eq!(DirectionReference::from_u8(3), Some(DirectionReference::Error));
    assert_eq!(BearingType::from_u8(0), Some(BearingType::GreatCircle));
    assert_eq!(BearingType::from_u8(1), Some(BearingType::Rhumbline));
    assert_eq!(BearingType::from_u8(2), None);
    assert_eq!(SystemTimeSource::from_u8(0), Some(SystemTimeSource::GPS));
    assert_eq!(SystemTimeSource::from_u8(5), Some(SystemTimeSource::LocalCrystalClock));
    assert_eq!(SystemTimeSource::from_u8(6), None);
}

#[test]
fn defaults_of_records() {
    let v = VesselHeading::new();
    assert_eq!(v.sid, 0);
    assert_eq!(v.heading.ten_thousandths(), 0);
    assert_eq!(v.reference, Some(DirectionReference::True));
    let c = CourseOverGround::new();
    assert_eq!(c.sog, 0);
    assert_eq!(c.cog_reference, Some(DirectionReference::True));
    assert_eq!(Rad::from_i16(-5).ten_thousandths(), -5);
    assert_eq!(Rad::new(65535).ten_thousandths(), 65535);
}

#[test]
fn decoding_twice_gives_the_same_record() {
    let payload = [159, 255, 255, 255, 127, 185, 6, 253];
    let a = VesselHeading::get_data(VesselHeadingFrame { data: payload }).unwrap();
    let b = VesselHeading::get_data(VesselHeadingFrame { data: payload }).unwrap();
    assert_eq!(a.sid, b.sid);
    assert_eq!(a.heading, b.heading);
    assert_eq!(a.deviation, b.deviation);
    assert_eq!(a.variation, b.variation);
    assert_eq!(a.reference, b.reference);
    assert_eq!(a.reference, Some(DirectionReference::Error));
}

#[test]
fn reassembled_payload_decodes_like_the_whole_buffer() {
    let mut fp = FastPacketReassembler::new();
    let mut assembled = None;
    for (k, f) in NAV_FRAMES.iter().enumerate() {
        let r = fp.ingest(7, f).unwrap();
        if k == 4 {
            assembled = r;
        } else {
            assert!(r.is_none());
        }
    }
    let assembled = assembled.unwrap();
    assert_eq!(assembled.len(), 34);
    // The last frame opened a new message from the same source.
    assert!(fp.in_progress(7));

    let mut whole = [0u8; 64];
    whole[..6].copy_from_slice(&NAV_FRAMES[0][2..8]);
    for k in 1..5 {
        let at = 6 + (k - 1) * 7;
        whole[at..at + 7].copy_from_slice(&NAV_FRAMES[k][1..8]);
    }
    assert_eq!(&assembled[..], &whole[..34]);
    let a = decode_navigation_data(&assembled).unwrap();
    let b = decode_navigation_data(&whole).unwrap();
    assert_eq!(a.waypoint_closing_velocity, 141);
    assert_eq!(a.bearing_origin_to_waypoint.ten_thousandths(), 65535);
    assert_eq!(a.waypoint_closing_velocity, b.waypoint_closing_velocity);
    assert_eq!(a.bearing_origin_to_waypoint, b.bearing_origin_to_waypoint);
    assert_eq!(a.sid, b.sid);
    assert_eq!(a.sid, 204);
    assert_eq!(a.distance_to_waypoint, b.distance_to_waypoint);
    assert_eq!(a.destination_longitude, b.destination_longitude);
    assert_eq!(a.eta_time.get_seconds(), b.eta_time.get_seconds());
}

#[test]
fn frames_out_of_order_land_at_their_place() {
    let mut fp = FastPacketReassembler::new();
    assert_eq!(fp.ingest(1, &[0x20, 13, 1, 2, 3, 4, 5, 6]), Ok(None));
    assert_eq!(fp.ingest(1, &[0x22, 14, 15, 16, 17, 18, 19, 20]), Ok(Some(vec![
        1, 2, 3, 4, 5, 6, 0, 0, 0, 0, 0, 0, 0,
    ])));
    assert!(!fp.in_progress(1));
}

#[test]
fn short_message_finishes_with_its_first_frame() {
    let mut fp = FastPacketReassembler::new();
    assert_eq!(fp.ingest(3, &[0x40, 4, 9, 8, 7, 6, 5, 4]), Ok(Some(vec![9, 8, 7, 6])));
    assert!(!fp.in_progress(3));
    assert_eq!(fp.ingest(3, &[0x40, 0, 9, 8, 7, 6, 5, 4]), Ok(Some(vec![])));
}

#[test]
fn stray_frame_is_a_sequence_mismatch() {
    let mut fp = FastPacketReassembler::new();
    assert_eq!(fp.ingest(5, &[0x41, 1, 2, 3, 4, 5, 6, 7]), Err(NmeaError::SequenceMismatch));
    assert_eq!(fp.ingest(5, &NAV_FRAMES[0]), Ok(None));
    assert_eq!(fp.ingest(6, &NAV_FRAMES[0]), Ok(None));
    // Sequence 3 while source 5 sends sequence 2.
    assert_eq!(fp.ingest(5, &[0x61, 1, 2, 3, 4, 5, 6, 7]), Err(NmeaError::SequenceMismatch));
    assert!(fp.in_progress(5));
    assert!(fp.in_progress(6));
    assert!(!fp.in_progress(4));
    for f in &NAV_FRAMES[1..5] {
        fp.ingest(5, f).unwrap();
    }
    assert!(!fp.in_progress(5));
    assert!(fp.in_progress(6));
}

#[test]
fn message_that_never_ends_is_dropped() {
    let mut fp = FastPacketReassembler::new();
    // Announces 255 bytes, more than a fast-packet message can carry.
    assert_eq!(fp.ingest(9, &[0x00, 255, 0, 0, 0, 0, 0, 0]), Ok(None));
    for _ in 1..MAX_FRAMES {
        assert_eq!(fp.ingest(9, &[0x01, 0, 0, 0, 0, 0, 0, 0]), Ok(None));
    }
    assert_eq!(fp.ingest(9, &[0x01, 0, 0, 0, 0, 0, 0, 0]), Err(NmeaError::Stale));
    assert!(!fp.in_progress(9));
}

#[test]
fn navigation_data_waits_for_all_frames() {
    let mut nav = NavigationData::new();
    assert_eq!(nav.get_data(), Err(NmeaError::NotFullyParsed));
    nav.parse_frame(nmea2000::nmea_frame::NavigationDataFrame { data: NAV_FRAMES[0] }).unwrap();
    assert_eq!(nav.get_data(), Err(NmeaError::NotFullyParsed));
    assert_eq!(
        nav.parse_frame(nmea2000::nmea_frame::NavigationDataFrame { data: [0xE1, 0, 0, 0, 0, 0, 0, 0] }),
        Err(())
    );
    for f in &NAV_FRAMES[1..5] {
        nav.parse_frame(nmea2000::nmea_frame::NavigationDataFrame { data: *f }).unwrap();
    }
    assert_eq!(nav.get_data(), Ok(()));
    assert_eq!(nav.waypoint_closing_velocity, Some(141));
    assert_eq!(nav.sid, Some(204));
    assert_eq!(nav.calculation_type, Some(BearingType::GreatCircle));
}

#[test]
fn navigation_data_too_short_is_a_parse_error() {
    let mut nav = NavigationData::new();
    nav.parse_frame(nmea2000::nmea_frame::NavigationDataFrame { data: [0x00, 5, 1, 2, 3, 4, 5, 6] })
        .unwrap();
    assert_eq!(nav.get_data(), Err(NmeaError::ParseError));
    assert_eq!(nav.sid, None);
}

#[test]
fn parse_data_tags_known_frames() {
    let id = NmeaId(0b01101111100000001000000000000);
    let payload = [1u8, 2, 3, 4, 5, 6, 7, 8, 9];
    match id.parse_data(&payload) {
        Ok(NmeaFrame::SystemTime(f)) => assert_eq!(f.data, [1, 2, 3, 4, 5, 6, 7, 8]),
        _ => panic!("expected a System Time frame"),
    }
    assert!(matches!(id.parse_data(&payload[..7]), Err(NmeaError::ParseError)));
    assert!(matches!(
        navigation_id(3).parse_data(&payload),
        Ok(NmeaFrame::NavigationData(_))
    ));
}

#[test]
fn unknown_pgn_is_not_implemented() {
    let id = NmeaId((0xEA << 16) | (0x55 << 8) | 0x21);
    assert!(matches!(id.parse_data(&[0u8; 8]), Err(NmeaError::NotImplemented)));
    // Wind Data is a known group without a decoder.
    let wind = NmeaId((1 << 24) | (0xFD << 16) | (0x02 << 8));
    assert_eq!(wind.get_pgn(), Some(PGN::WindData));
    assert!(matches!(wind.parse_data(&[0u8; 8]), Err(NmeaError::NotImplemented)));
    let mut d = Dispatcher::new();
    assert!(matches!(d.dispatch(&id, &[0u8; 8]), Ok(DispatchOutcome::Unknown)));
    assert!(matches!(d.dispatch(&wind, &[0u8; 8]), Ok(DispatchOutcome::Unknown)));
}

#[test]
fn registry_classes() {
    assert_eq!(lookup(PGN::SystemTime), Some(FrameClass::Single));
    assert_eq!(lookup(PGN::VesselHeading), Some(FrameClass::Single));
    assert_eq!(lookup(PGN::COGSOGRapidUpdate), Some(FrameClass::Single));
    assert_eq!(lookup(PGN::NavigationData), Some(FrameClass::FastPacket));
    assert_eq!(lookup(PGN::ISOAddressClaim), None);
}

#[test]
fn dispatch_decodes_single_frames() {
    let mut d = Dispatcher::new();
    let id = NmeaId(0b01001111100010001001000000000);
    match d.dispatch(&id, &[159, 255, 255, 255, 127, 185, 6, 253]) {
        Ok(DispatchOutcome::Decoded(DecodedMessage::VesselHeading(v))) => {
            assert_eq!(v.heading.ten_thousandths(), 65535);
            assert_eq!(v.deviation.ten_thousandths(), 32767);
            assert_eq!(v.variation.ten_thousandths(), 1721);
        }
        _ => panic!("expected a Vessel Heading"),
    }
    let cog = NmeaId((1 << 24) | (0xF8 << 16) | (0x02 << 8) | 4);
    match d.dispatch(&cog, &[0b11100010, 255, 255, 255, 255, 255, 255, 255]) {
        Ok(DispatchOutcome::Decoded(DecodedMessage::COGSOGRapidUpdate(c))) => {
            assert_eq!(c.cog_reference, Some(DirectionReference::Error));
            assert_eq!(c.sog, 65535);
        }
        _ => panic!("expected a COG & SOG record"),
    }
}

#[test]
fn dispatch_reassembles_per_source() {
    let mut d = Dispatcher::new();
    for f in &NAV_FRAMES[0..4] {
        assert!(matches!(d.dispatch(&navigation_id(10), f), Ok(DispatchOutcome::Pending)));
    }
    // A frame of another source does not disturb source 10.
    assert!(matches!(
        d.dispatch(&navigation_id(11), &NAV_FRAMES[1]),
        Err(NmeaError::SequenceMismatch)
    ));
    match d.dispatch(&navigation_id(10), &NAV_FRAMES[4]) {
        Ok(DispatchOutcome::Decoded(DecodedMessage::NavigationData(n))) => {
            assert_eq!(n.waypoint_closing_velocity, 141);
            assert_eq!(n.bearing_origin_to_waypoint.ten_thousandths(), 65535);
        }
        _ => panic!("expected Navigation Data"),
    }
    assert!(matches!(d.dispatch(&navigation_id(10), &NAV_FRAMES[5]), Ok(DispatchOutcome::Pending)));
}
