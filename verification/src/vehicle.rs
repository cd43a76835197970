//! Wheel indexing for the vehicle model. The vehicle dynamics themselves are
//! floating point and live in the application.
use vstd::prelude::*;

verus! {

/// Number of wheels per vehicle.
pub const NUM_WHEELS: usize = 4;

/// Index helpers for the four wheels, in canonical order (FL, FR, RL, RR).
#[derive(Clone, Copy, Debug, PartialEq, Eq, Structural)]
pub enum WheelIndex {
    /// Front left.
    FrontLeft,
    /// Front right.
    FrontRight,
    /// Rear left.
    RearLeft,
    /// Rear right.
    RearRight,
}

impl WheelIndex {
    /// All wheels in canonical order (FL, FR, RL, RR).
    pub fn all() -> (w: [WheelIndex; 4])
        ensures
            w[0] == WheelIndex::FrontLeft,
            w[1] == WheelIndex::FrontRight,
            w[2] == WheelIndex::RearLeft,
            w[3] == WheelIndex::RearRight,
    {
        [WheelIndex::FrontLeft, WheelIndex::FrontRight, WheelIndex::RearLeft, WheelIndex::RearRight]
    }

    /// Position of this wheel in the canonical order.
    pub fn index(self) -> (i: usize)
        ensures
            i < NUM_WHEELS,
            i == 0 <==> self == WheelIndex::FrontLeft,
            i == 1 <==> self == WheelIndex::FrontRight,
            i == 2 <==> self == WheelIndex::RearLeft,
            i == 3 <==> self == WheelIndex::RearRight,
    {
        match self {
            WheelIndex::FrontLeft => 0,
            WheelIndex::FrontRight => 1,
            WheelIndex::RearLeft => 2,
            WheelIndex::RearRight => 3,
        }
    }

    /// True if this wheel is on the front axle (steers).
    pub fn is_front(self) -> (front: bool)
        ensures
            front <==> (self == WheelIndex::FrontLeft || self == WheelIndex::FrontRight),
    {
        match self {
            WheelIndex::FrontLeft | WheelIndex::FrontRight => true,
            _ => false,
        }
    }
}

} // verus!
