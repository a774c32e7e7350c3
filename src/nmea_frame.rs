//! Single CAN frame payloads, tagged by the message they carry.
use vstd::prelude::*;

verus! {

/// One frame of a fast-packet Navigation Data message.
#[derive(Clone, Copy, Debug, PartialEq, Eq)]
pub struct NavigationDataFrame {
    pub data: [u8; 8],
}

/// The payload of a COG & SOG Rapid Update message.
#[derive(Clone, Copy, Debug, PartialEq, Eq)]
pub struct COGSOGRapidUpdateFrame {
    pub data: [u8; 8],
}

/// The payload of a System Time message.
#[derive(Clone, Copy, Debug, PartialEq, Eq)]
pub struct SystemTimeFrame {
    pub data: [u8; 8],
}

/// The payload of a Vessel Heading message.
#[derive(Clone, Copy, Debug, PartialEq, Eq)]
pub struct VesselHeadingFrame {
    pub data: [u8; 8],
}

/// A frame payload, tagged by the message it belongs to.
#[derive(Clone, Copy, Debug, PartialEq, Eq)]
pub enum NmeaFrame {
    SystemTime(SystemTimeFrame),
    NavigationData(NavigationDataFrame),
    COGSOGRapidUpdate(COGSOGRapidUpdateFrame),
    VesselHeading(VesselHeadingFrame),
}

} // verus!
