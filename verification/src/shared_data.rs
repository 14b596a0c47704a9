//! The cross-context state record: the fields that both the asynchronous
//! button handlers and the periodic control tick read and write. The caller
//! holds it under one mutual-exclusion lock; every function here that touches
//! more than one field does so in one call, so one acquisition suffices.

use crate::display::DisplayState;
use crate::dry_table::Material;
use crate::dryer::HeaterState;
use vstd::prelude::*;

verus! {

/// The shared fields. `heater_started` is a caller-supplied monotonic clock
/// value in milliseconds; it is meaningful only while `heater_state` is
/// `Running` and `material` is not `Idle`, and is set exactly once per
/// transition into that condition.
#[derive(Clone, Copy, Debug, PartialEq, Eq, Structural)]
pub struct SharedData {
    pub heater_state: HeaterState,
    pub display_state: DisplayState,
    pub material: Material,
    pub hovered_material: Material,
    pub heater_started: u64,
}

impl SharedData {
    /// The startup state: no cycle committed, status screen shown, nothing
    /// selected or hovered.
    pub fn new() -> (r: Self)
        ensures
            r.heater_state == HeaterState::Idle,
            r.display_state == DisplayState::Idle,
            r.material == Material::Idle,
            r.hovered_material == Material::Idle,
            r.heater_started == 0,
    {
        Self {
            heater_state: HeaterState::Idle,
            display_state: DisplayState::Idle,
            material: Material::Idle,
            hovered_material: Material::Idle,
            heater_started: 0,
        }
    }
}

} // verus!
