//! How a bearing to a waypoint is calculated.
use vstd::prelude::*;

verus! {

/// The calculation behind a bearing.
#[derive(Clone, Copy, Debug, PartialEq, Eq, Structural)]
pub enum BearingType {
    GreatCircle,
    Rhumbline,
}

/// The calculation type that a raw field value stands for: 0 and 1, nothing else.
pub open spec fn bearing_type_of(v: nat) -> Option<BearingType> {
    if v == 0 {
        Some(BearingType::GreatCircle)
    } else if v == 1 {
        Some(BearingType::Rhumbline)
    } else {
        None
    }
}

impl BearingType {
    /// The calculation type of a raw field value.
    pub fn from_u8(v: u8) -> (r: Option<BearingType>)
        ensures
            r == bearing_type_of(v as nat),
    {
        if v == 0 {
            Some(BearingType::GreatCircle)
        } else if v == 1 {
            Some(BearingType::Rhumbline)
        } else {
            None
        }
    }
}

} // verus!
