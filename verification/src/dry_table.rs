//! The drying catalog: the closed set of materials, the per-material drying
//! parameters, and the circular order used by the selection menu.

use vstd::prelude::*;

verus! {

/// Drying parameters of one material: the display name, the target chamber
/// temperature in whole degrees Celsius, and the target cycle duration in
/// seconds.
pub struct MaterialInfo {
    pub name: &'static str,
    pub temp: u32,
    pub time_secs: u64,
}

/// The closed set of selectable materials. `Idle` stands for "no active
/// cycle" and carries target temperature 0 and duration 0.
#[derive(Clone, Copy, Debug, PartialEq, Eq, Structural)]
pub enum Material {
    Idle,
    Demo,
    Pla,
    Pvb,
    Petg,
    Asa,
    Tpu,
}

impl Material {
    /// The catalog entry of this material.
    pub open spec fn info_spec(self) -> MaterialInfo {
        match self {
            Material::Idle => MaterialInfo { name: "IDLE", temp: 0, time_secs: 0 },
            Material::Demo => MaterialInfo { name: "DEMO", temp: 45, time_secs: 300 },
            Material::Pla => MaterialInfo { name: "PLA", temp: 45, time_secs: 21600 },
            Material::Pvb => MaterialInfo { name: "PVB", temp: 45, time_secs: 28800 },
            Material::Petg => MaterialInfo { name: "PETG", temp: 55, time_secs: 21600 },
            Material::Asa => MaterialInfo { name: "ASA", temp: 80, time_secs: 14400 },
            Material::Tpu => MaterialInfo { name: "TPU", temp: 60, time_secs: 14400 },
        }
    }

    /// The successor in the menu cycle Idle -> Demo -> Pla -> Pvb -> Petg ->
    /// Asa -> Tpu -> Idle.
    pub open spec fn next_spec(self) -> Material {
        match self {
            Material::Idle => Material::Demo,
            Material::Demo => Material::Pla,
            Material::Pla => Material::Pvb,
            Material::Pvb => Material::Petg,
            Material::Petg => Material::Asa,
            Material::Asa => Material::Tpu,
            Material::Tpu => Material::Idle,
        }
    }

    /// The predecessor in the menu cycle.
    pub open spec fn prev_spec(self) -> Material {
        match self {
            Material::Idle => Material::Tpu,
            Material::Demo => Material::Idle,
            Material::Pla => Material::Demo,
            Material::Pvb => Material::Pla,
            Material::Petg => Material::Pvb,
            Material::Asa => Material::Petg,
            Material::Tpu => Material::Asa,
        }
    }

    /// Looks this material up in the catalog.
    pub fn get(&self) -> (r: MaterialInfo)
        ensures
            r == self.info_spec(),
    {
        match self {
            Material::Idle => MaterialInfo { name: "IDLE", temp: 0, time_secs: 0 },
            Material::Demo => MaterialInfo { name: "DEMO", temp: 45, time_secs: 300 },
            Material::Pla => MaterialInfo { name: "PLA", temp: 45, time_secs: 21600 },
            Material::Pvb => MaterialInfo { name: "PVB", temp: 45, time_secs: 28800 },
            Material::Petg => MaterialInfo { name: "PETG", temp: 55, time_secs: 21600 },
            Material::Asa => MaterialInfo { name: "ASA", temp: 80, time_secs: 14400 },
            Material::Tpu => MaterialInfo { name: "TPU", temp: 60, time_secs: 14400 },
        }
    }

    /// Steps forward once in the menu cycle.
    pub fn next(self) -> (r: Material)
        ensures
            r == self.next_spec(),
    {
        match self {
            Material::Idle => Material::Demo,
            Material::Demo => Material::Pla,
            Material::Pla => Material::Pvb,
            Material::Pvb => Material::Petg,
            Material::Petg => Material::Asa,
            Material::Asa => Material::Tpu,
            Material::Tpu => Material::Idle,
        }
    }

    /// Steps backward once in the menu cycle.
    pub fn prev(self) -> (r: Material)
        ensures
            r == self.prev_spec(),
    {
        match self {
            Material::Idle => Material::Tpu,
            Material::Demo => Material::Idle,
            Material::Pla => Material::Demo,
            Material::Pvb => Material::Pla,
            Material::Petg => Material::Pvb,
            Material::Asa => Material::Petg,
            Material::Tpu => Material::Asa,
        }
    }
}

/// The menu order is a cycle: stepping forward and stepping backward are
/// mutual inverses at every material.
pub proof fn lemma_next_prev_inverse(m: Material)
    ensures
        m.next_spec().prev_spec() == m,
        m.prev_spec().next_spec() == m,
{
}

/// Stepping forward seven times (once per material) returns to the start.
pub proof fn lemma_next_cycle_length(m: Material)
    ensures
        m.next_spec().next_spec().next_spec().next_spec().next_spec().next_spec().next_spec()
            == m,
{
}

} // verus!
