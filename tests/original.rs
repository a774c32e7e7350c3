use nmea2000::course_over_ground::CourseOverGround;
use nmea2000::navigation_data::NavigationData;
use nmea2000::nmea_frame::{
    COGSOGRapidUpdateFrame, NavigationDataFrame, SystemTimeFrame, VesselHeadingFrame,
};
use nmea2000::pgn::PGN;
use nmea2000::rad::Rad;
use nmea2000::system_time::SystemTime;
use nmea2000::vessel_heading::{DirectionReference, VesselHeading};
use nmea2000::{FastPacketMessage, Message, NmeaId};

fn radians(r: &Rad) -> f32 {
    r.ten_thousandths() as f32 * 0.0001
}

#[test]
fn parses_cog() {
    let cog_data = [0b11100010, 255, 255, 255, 255, 255, 255, 255];
    let parsed_data = CourseOverGround::get_data(COGSOGRapidUpdateFrame { data: cog_data });
    let data = parsed_data.unwrap();
    assert_eq!(DirectionReference::Error, data.cog_reference.unwrap());
    assert_eq!(6.5534997, radians(&data.cog));
    assert_eq!(65535, data.sog);
}

#[test]
fn gets_corret_pgn_for_system_time() {
    let id = 0b01101111100000001000000000000;
    let nmea_id = NmeaId(id);
    assert_eq!(nmea_id.reserved_data_page(), 1);
    assert_eq!(nmea_id.pf(), 240);
    assert_eq!(nmea_id.ps(), 16);
    assert_eq!(nmea_id.get_pgn(), Some(PGN::SystemTime));
}

#[test]
fn gets_corret_pgn_for_vessel_heading() {
    let id = 0b01001111100010001001000000000;
    let nmea_id = NmeaId(id);
    assert_eq!(nmea_id.get_pgn(), Some(PGN::VesselHeading));
}

#[test]
fn parses_navigation_data_correctly_2() {
    let nav_data: Vec<[u8; 8]> = vec![
        [64, 34, 204, 55, 29, 16, 0, 0],
        [65, 48, 87, 21, 39, 170, 76, 255],
        [66, 255, 255, 255, 255, 255, 255, 255],
        [67, 0, 0, 0, 0, 255, 255, 255],
        [68, 127, 255, 255, 255, 127, 141, 0],
        [128, 34, 206, 232, 117, 25, 0, 0],
    ];

    let mut navigation_data = NavigationData::new();
    for data in nav_data {
        let _ = navigation_data.parse_frame(NavigationDataFrame { data }).unwrap();
    }
    let _ = navigation_data.parse_navigation_data();
    assert_eq!(1.41, navigation_data.waypoint_closing_velocity.unwrap() as f32 * 0.01);
    assert_eq!(6.5534997, radians(&navigation_data.bearing_origin_to_waypoint.unwrap()));
}

#[test]
fn parses_system_time_correctly() {
    let system_time_data = [46, 255, 169, 76, 48, 180, 171, 1];
    let parsed_data = SystemTime::get_data(SystemTimeFrame { data: system_time_data });
    let data = parsed_data.unwrap();
    assert_eq!(19625, data.date);
    assert_eq!(2803, data.time.get_seconds());
}

#[test]
fn parses_vessel_heading_correctly() {
    let vessel_heading_data = [159, 255, 255, 255, 127, 185, 6, 253];
    let parsed_data = VesselHeading::get_data(VesselHeadingFrame { data: vessel_heading_data });
    let data = parsed_data.unwrap();
    assert_eq!(6.5534997, radians(&data.heading));
    assert_eq!(3.2767, radians(&data.deviation));
    assert_eq!(0.1721, radians(&data.variation));
}
