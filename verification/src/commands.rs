//! A small convenience façade that remembers the connected model and
//! builds the periodic state queries for it.

use vstd::prelude::*;
use crate::codec::{FractalU14, FractalU7};
use crate::functions::FractalFunction;
use crate::messages::{RawPreset, RawScene};
use crate::model::FractalModel;
use crate::struct_generic::{FractalAudioMessage, FractalAudioMessagePacker};

verus! {

/// Query builders bound to one model.
pub struct Commands {
    pub model: FractalModel,
}

impl Commands {
    pub fn new(model: FractalModel) -> (r: Self)
        ensures
            r.model == model,
    {
        Commands { model }
    }

    /// The query for the current preset, with the "current" sentinel.
    pub fn get_current_preset_info(&self) -> (r: RawPreset)
        ensures
            r.pack_wf(),
            r.header.model == self.model,
            r.function == FractalFunction::PRESET_INFO,
            r.data.lsb == 0x7F,
            r.data.msb == 0x7F,
    {
        FractalAudioMessage::new(self.model, FractalFunction::PRESET_INFO, FractalU14::new_all())
    }

    /// The query for the current scene, with the "current" sentinel.
    pub fn get_current_scene_info(&self) -> (r: RawScene)
        ensures
            r.pack_wf(),
            r.header.model == self.model,
            r.function == FractalFunction::GET_SCENE_NAME,
            r.data.value == 0x7F,
    {
        FractalAudioMessage::new(self.model, FractalFunction::GET_SCENE_NAME, FractalU7::new_all())
    }
}

} // verus!
