//! The closed set of protocol function codes: the single byte after the
//! model byte that says what a frame asks for or reports.

use vstd::prelude::*;

verus! {

#[allow(non_camel_case_types)]
#[derive(Debug, Clone, Copy, PartialEq, Eq, Structural)]
pub enum FractalFunction {
    SET_PRESET_NUMBER,
    GET_FIRMWARE_VERSION,
    FRONT_PANEL_CHANGE_DETECTED,
    DISCONNECT_FROM_CONTROLLER,
    GET_MIDI_CHANNEL,
    PRESET_INFO,
    GET_SCENE_NUMBER,
    GET_SET_SCENE,
    GET_SET_EFFECT_CHANNEL,
    GET_SET_EFFECT_BYPASS,
    MULTIPURPOSE_RESPONSE,
    BATCH_LIST_REQUEST_START,
    BATCH_LIST_REQUEST_COMPLETE,
    GET_PRESET_NAME,
    GET_SCENE_NAME,
    STATUS_DUMP,
    TUNER_ON_OF,
    REQUEST_TEMPO,
    GET_GRID_LAYOUT_AND_ROUTING,
    GET_BLOCK_PARAMETERS_LIST,
    GET_SET_BLOCK_PARAMETER_VALUE,
    SET_TYPED_BLOCK_PARAMETER_VALUE,
}

/// The wire byte of a function code.
pub open spec fn spec_function_code(f: FractalFunction) -> u8 {
    match f {
        FractalFunction::SET_PRESET_NUMBER => 0x3C,
        FractalFunction::GET_FIRMWARE_VERSION => 0x08,
        FractalFunction::FRONT_PANEL_CHANGE_DETECTED => 0x21,
        FractalFunction::DISCONNECT_FROM_CONTROLLER => 0x42,
        FractalFunction::GET_MIDI_CHANNEL => 0x17,
        FractalFunction::PRESET_INFO => 0x0D,
        FractalFunction::GET_SCENE_NUMBER => 0x29,
        FractalFunction::GET_SET_SCENE => 0x0C,
        FractalFunction::GET_SET_EFFECT_CHANNEL => 0x0B,
        FractalFunction::GET_SET_EFFECT_BYPASS => 0x0A,
        FractalFunction::MULTIPURPOSE_RESPONSE => 0x64,
        FractalFunction::BATCH_LIST_REQUEST_START => 0x32,
        FractalFunction::BATCH_LIST_REQUEST_COMPLETE => 0x33,
        FractalFunction::GET_PRESET_NAME => 0x0F,
        FractalFunction::GET_SCENE_NAME => 0x0E,
        FractalFunction::STATUS_DUMP => 0x13,
        FractalFunction::TUNER_ON_OF => 0x11,
        FractalFunction::REQUEST_TEMPO => 0x14,
        FractalFunction::GET_GRID_LAYOUT_AND_ROUTING => 0x20,
        FractalFunction::GET_BLOCK_PARAMETERS_LIST => 0x01,
        FractalFunction::GET_SET_BLOCK_PARAMETER_VALUE => 0x02,
        FractalFunction::SET_TYPED_BLOCK_PARAMETER_VALUE => 0x2E,
    }
}

/// The function a wire byte stands for, if it is a known code.
pub open spec fn spec_function_from_code(code: u8) -> Option<FractalFunction> {
    match code {
        0x3Cu8 => Some(FractalFunction::SET_PRESET_NUMBER),
        0x08u8 => Some(FractalFunction::GET_FIRMWARE_VERSION),
        0x21u8 => Some(FractalFunction::FRONT_PANEL_CHANGE_DETECTED),
        0x42u8 => Some(FractalFunction::DISCONNECT_FROM_CONTROLLER),
        0x17u8 => Some(FractalFunction::GET_MIDI_CHANNEL),
        0x0Du8 => Some(FractalFunction::PRESET_INFO),
        0x29u8 => Some(FractalFunction::GET_SCENE_NUMBER),
        0x0Cu8 => Some(FractalFunction::GET_SET_SCENE),
        0x0Bu8 => Some(FractalFunction::GET_SET_EFFECT_CHANNEL),
        0x0Au8 => Some(FractalFunction::GET_SET_EFFECT_BYPASS),
        0x64u8 => Some(FractalFunction::MULTIPURPOSE_RESPONSE),
        0x32u8 => Some(FractalFunction::BATCH_LIST_REQUEST_START),
        0x33u8 => Some(FractalFunction::BATCH_LIST_REQUEST_COMPLETE),
        0x0Fu8 => Some(FractalFunction::GET_PRESET_NAME),
        0x0Eu8 => Some(FractalFunction::GET_SCENE_NAME),
        0x13u8 => Some(FractalFunction::STATUS_DUMP),
        0x11u8 => Some(FractalFunction::TUNER_ON_OF),
        0x14u8 => Some(FractalFunction::REQUEST_TEMPO),
        0x20u8 => Some(FractalFunction::GET_GRID_LAYOUT_AND_ROUTING),
        0x01u8 => Some(FractalFunction::GET_BLOCK_PARAMETERS_LIST),
        0x02u8 => Some(FractalFunction::GET_SET_BLOCK_PARAMETER_VALUE),
        0x2Eu8 => Some(FractalFunction::SET_TYPED_BLOCK_PARAMETER_VALUE),
        _ => None,
    }
}

pub fn function_code(f: FractalFunction) -> (r: u8)
    ensures
        r == spec_function_code(f),
{
    match f {
        FractalFunction::SET_PRESET_NUMBER => 0x3C,
        FractalFunction::GET_FIRMWARE_VERSION => 0x08,
        FractalFunction::FRONT_PANEL_CHANGE_DETECTED => 0x21,
        FractalFunction::DISCONNECT_FROM_CONTROLLER => 0x42,
        FractalFunction::GET_MIDI_CHANNEL => 0x17,
        FractalFunction::PRESET_INFO => 0x0D,
        FractalFunction::GET_SCENE_NUMBER => 0x29,
        FractalFunction::GET_SET_SCENE => 0x0C,
        FractalFunction::GET_SET_EFFECT_CHANNEL => 0x0B,
        FractalFunction::GET_SET_EFFECT_BYPASS => 0x0A,
        FractalFunction::MULTIPURPOSE_RESPONSE => 0x64,
        FractalFunction::BATCH_LIST_REQUEST_START => 0x32,
        FractalFunction::BATCH_LIST_REQUEST_COMPLETE => 0x33,
        FractalFunction::GET_PRESET_NAME => 0x0F,
        FractalFunction::GET_SCENE_NAME => 0x0E,
        FractalFunction::STATUS_DUMP => 0x13,
        FractalFunction::TUNER_ON_OF => 0x11,
        FractalFunction::REQUEST_TEMPO => 0x14,
        FractalFunction::GET_GRID_LAYOUT_AND_ROUTING => 0x20,
        FractalFunction::GET_BLOCK_PARAMETERS_LIST => 0x01,
        FractalFunction::GET_SET_BLOCK_PARAMETER_VALUE => 0x02,
        FractalFunction::SET_TYPED_BLOCK_PARAMETER_VALUE => 0x2E,
    }
}

pub fn function_from_code(code: u8) -> (r: Option<FractalFunction>)
    ensures
        r == spec_function_from_code(code),
{
    match code {
        0x3C => Some(FractalFunction::SET_PRESET_NUMBER),
        0x08 => Some(FractalFunction::GET_FIRMWARE_VERSION),
        0x21 => Some(FractalFunction::FRONT_PANEL_CHANGE_DETECTED),
        0x42 => Some(FractalFunction::DISCONNECT_FROM_CONTROLLER),
        0x17 => Some(FractalFunction::GET_MIDI_CHANNEL),
        0x0D => Some(FractalFunction::PRESET_INFO),
        0x29 => Some(FractalFunction::GET_SCENE_NUMBER),
        0x0C => Some(FractalFunction::GET_SET_SCENE),
        0x0B => Some(FractalFunction::GET_SET_EFFECT_CHANNEL),
        0x0A => Some(FractalFunction::GET_SET_EFFECT_BYPASS),
        0x64 => Some(FractalFunction::MULTIPURPOSE_RESPONSE),
        0x32 => Some(FractalFunction::BATCH_LIST_REQUEST_START),
        0x33 => Some(FractalFunction::BATCH_LIST_REQUEST_COMPLETE),
        0x0F => Some(FractalFunction::GET_PRESET_NAME),
        0x0E => Some(FractalFunction::GET_SCENE_NAME),
        0x13 => Some(FractalFunction::STATUS_DUMP),
        0x11 => Some(FractalFunction::TUNER_ON_OF),
        0x14 => Some(FractalFunction::REQUEST_TEMPO),
        0x20 => Some(FractalFunction::GET_GRID_LAYOUT_AND_ROUTING),
        0x01 => Some(FractalFunction::GET_BLOCK_PARAMETERS_LIST),
        0x02 => Some(FractalFunction::GET_SET_BLOCK_PARAMETER_VALUE),
        0x2E => Some(FractalFunction::SET_TYPED_BLOCK_PARAMETER_VALUE),
        _ => None,
    }
}

/// Function codes round-trip and stay below the 7-bit limit, so none can
/// be mistaken for a frame marker.
pub proof fn lemma_function_code_round_trip(f: FractalFunction)
    ensures
        spec_function_from_code(spec_function_code(f)) == Some(f),
        spec_function_code(f) < 0x80,
{
}

/// A known function code is reproduced by the function it stands for.
pub proof fn lemma_function_code_inverse(code: u8)
    ensures
        spec_function_from_code(code) matches Some(f) ==> spec_function_code(f) == code,
{
}

} // verus!
