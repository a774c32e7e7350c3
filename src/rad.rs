//! Angles as carried on the wire, in units of 0.0001 radian.
use vstd::prelude::*;

verus! {

/// An angle in ten-thousandths of a radian.
#[derive(Clone, Copy, Debug, PartialEq, Eq)]
pub struct Rad {
    value: i32,
}

impl View for Rad {
    type V = int;

    /// The angle in ten-thousandths of a radian.
    closed spec fn view(&self) -> int {
        self.value as int
    }
}

impl Rad {
    /// An angle from an unsigned wire value.
    pub fn new(value: u16) -> (r: Rad)
        ensures
            r@ == value as int,
    {
        Rad { value: value as i32 }
    }

    /// An angle from a signed wire value.
    pub fn from_i16(value: i16) -> (r: Rad)
        ensures
            r@ == value as int,
    {
        Rad { value: value as i32 }
    }

    /// The angle in ten-thousandths of a radian.
    pub fn ten_thousandths(&self) -> (r: i32)
        ensures
            r as int == self@,
    {
        self.value
    }
}

/// Two angles with the same view are the same angle.
pub proof fn lemma_rad_view_injective(a: Rad, b: Rad)
    requires
        a@ == b@,
    ensures
        a == b,
{
}

} // verus!
