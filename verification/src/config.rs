//! The persisted user preferences the shortcut tables are built from;
//! loading and saving them is the configuration collaborator's work.

use vstd::prelude::*;

verus! {

/// Which optional keyboard shortcut sets are enabled.
#[derive(Debug, Clone, Copy, PartialEq, Eq, Structural)]
pub struct AxessConfiguration {
    pub keyboard_shortcuts_axe_edit: bool,
    pub keyboard_shortcuts_presets_and_scenes_function_keys: bool,
}

impl Default for AxessConfiguration {
    fn default() -> (r: Self)
        ensures
            r.keyboard_shortcuts_axe_edit == true,
            r.keyboard_shortcuts_presets_and_scenes_function_keys == false,
    {
        AxessConfiguration {
            keyboard_shortcuts_axe_edit: true,
            keyboard_shortcuts_presets_and_scenes_function_keys: false,
        }
    }
}

} // verus!
