//! Per-vehicle tuning values.
use vstd::prelude::*;

use crate::trick::FULL_TURN_MDEG;

verus! {

/// Tuning values tied to a vehicle's shape and control conventions.
///
/// The grounded-contact threshold reflects the number of independent ground
/// contact points (two wheels on the default vehicle) rather than a general
/// rule, and the forward direction is a named convention rather than a
/// hard-coded axis sign.
#[derive(Clone, Copy, Debug)]
pub struct VehicleConfig {
    /// Ground contacts at which the vehicle counts as fully grounded: the
    /// bonk flag and the jump cooldown clear when a counter reaches exactly
    /// this value.
    pub grounded_wheels: u8,
    /// Residual rotation at landing, in millidegrees, beyond which one more
    /// whole flip is generously credited.
    pub generous_flip_mdeg: i64,
    /// True when the vehicle's nominal forward direction is toward positive
    /// x; a trick with net travel the other way is a fakie.
    pub forward_is_positive_x: bool,
}

impl VehicleConfig {
    /// A usable configuration: at least one contact point makes a ground,
    /// and the generous landing threshold lies strictly inside a full turn.
    pub open spec fn wf(self) -> bool {
        &&& self.grounded_wheels >= 1
        &&& 0 < self.generous_flip_mdeg < FULL_TURN_MDEG
    }
}

impl Default for VehicleConfig {
    /// The default vehicle: two wheels, a 260-degree generous landing
    /// threshold, forward toward positive x.
    fn default() -> (r: Self)
        ensures
            r.grounded_wheels == 2,
            r.generous_flip_mdeg == 260_000,
            r.forward_is_positive_x,
            r.wf(),
    {
        VehicleConfig { grounded_wheels: 2, generous_flip_mdeg: 260_000, forward_is_positive_x: true }
    }
}

} // verus!
