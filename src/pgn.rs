//! The parameter group numbers that this library knows.
use vstd::prelude::*;

verus! {

/// A known parameter group number.
#[derive(Clone, Copy, Debug, PartialEq, Eq, Structural)]
pub enum PGN {
    SystemTime,
    VesselHeading,
    NavigationData,
    GNSSPositionData,
    COGSOGRapidUpdate,
    PositionRapidUpdate,
    GNSSSatsInView,
    WindData,
    ISOAddressClaim,
}

/// The known group with number `n`, if there is one.
pub open spec fn known_pgn(n: nat) -> Option<PGN> {
    if n == 126992 {
        Some(PGN::SystemTime)
    } else if n == 127250 {
        Some(PGN::VesselHeading)
    } else if n == 129284 {
        Some(PGN::NavigationData)
    } else if n == 129029 {
        Some(PGN::GNSSPositionData)
    } else if n == 129026 {
        Some(PGN::COGSOGRapidUpdate)
    } else if n == 129025 {
        Some(PGN::PositionRapidUpdate)
    } else if n == 129540 {
        Some(PGN::GNSSSatsInView)
    } else if n == 130306 {
        Some(PGN::WindData)
    } else if n == 60928 {
        Some(PGN::ISOAddressClaim)
    } else {
        None
    }
}

/// The lookup finds exactly the group whose number is `n`.
pub proof fn lemma_known_pgn_is_number(n: nat, p: PGN)
    ensures
        known_pgn(n) == Some(p) <==> p.number_spec() == n,
{
}

impl PGN {
    /// The number that identifies this group on the bus.
    pub open spec fn number_spec(self) -> nat {
        match self {
            PGN::SystemTime => 126992,
            PGN::VesselHeading => 127250,
            PGN::NavigationData => 129284,
            PGN::GNSSPositionData => 129029,
            PGN::COGSOGRapidUpdate => 129026,
            PGN::PositionRapidUpdate => 129025,
            PGN::GNSSSatsInView => 129540,
            PGN::WindData => 130306,
            PGN::ISOAddressClaim => 60928,
        }
    }

    /// The number that identifies this group on the bus.
    pub fn number(&self) -> (r: u32)
        ensures
            r == self.number_spec(),
    {
        match self {
            PGN::SystemTime => 126992,
            PGN::VesselHeading => 127250,
            PGN::NavigationData => 129284,
            PGN::GNSSPositionData => 129029,
            PGN::COGSOGRapidUpdate => 129026,
            PGN::PositionRapidUpdate => 129025,
            PGN::GNSSSatsInView => 129540,
            PGN::WindData => 130306,
            PGN::ISOAddressClaim => 60928,
        }
    }

    /// The known group with number `v`, if there is one.
    pub fn from_u32(v: u32) -> (r: Option<PGN>)
        ensures
            r == known_pgn(v as nat),
    {
        if v == 126992 {
            Some(PGN::SystemTime)
        } else if v == 127250 {
            Some(PGN::VesselHeading)
        } else if v == 129284 {
            Some(PGN::NavigationData)
        } else if v == 129029 {
            Some(PGN::GNSSPositionData)
        } else if v == 129026 {
            Some(PGN::COGSOGRapidUpdate)
        } else if v == 129025 {
            Some(PGN::PositionRapidUpdate)
        } else if v == 129540 {
            Some(PGN::GNSSSatsInView)
        } else if v == 130306 {
            Some(PGN::WindData)
        } else if v == 60928 {
            Some(PGN::ISOAddressClaim)
        } else {
            None
        }
    }
}

} // verus!
