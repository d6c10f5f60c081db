//! The last-known device state: preset and scene with their names,
//! compared by value after each poll to decide whether anything changed.

use vstd::prelude::*;

verus! {

/// Ghost view of a device state: names as character sequences.
pub struct DeviceStateView {
    pub preset_number: u32,
    pub preset_name: Seq<char>,
    pub scene_number: u8,
    pub scene_name: Seq<char>,
}

/// The state a connected device last reported.
#[derive(Debug, Clone)]
pub struct DeviceState {
    pub preset_number: u32,
    pub preset_name: String,
    pub scene_number: u8,
    pub scene_name: String,
}

impl View for DeviceState {
    type V = DeviceStateView;

    open spec fn view(&self) -> DeviceStateView {
        DeviceStateView {
            preset_number: self.preset_number,
            preset_name: self.preset_name@,
            scene_number: self.scene_number,
            scene_name: self.scene_name@,
        }
    }
}

impl PartialEq for DeviceState {
    fn eq(&self, other: &Self) -> (r: bool) {
        self.preset_number == other.preset_number && self.scene_number == other.scene_number
            && self.preset_name == other.preset_name && self.scene_name == other.scene_name
    }
}

impl vstd::std_specs::cmp::PartialEqSpecImpl for DeviceState {
    open spec fn obeys_eq_spec() -> bool {
        true
    }

    open spec fn eq_spec(&self, other: &Self) -> bool {
        self@ == other@
    }
}

impl Default for DeviceState {
    /// The state a fresh connection starts from: preset and scene zero
    /// with empty names.
    fn default() -> (r: Self)
        ensures
            r.preset_number == 0,
            r.preset_name@ == Seq::<char>::empty(),
            r.scene_number == 0,
            r.scene_name@ == Seq::<char>::empty(),
    {
        DeviceState {
            preset_number: 0,
            preset_name: String::new(),
            scene_number: 0,
            scene_name: String::new(),
        }
    }
}

} // verus!
