//! The typed messages of the protocol: one struct per known
//! function/payload shape, the tagged union over them, and their ghost
//! views for contracts.

use vstd::prelude::*;
use crate::codec::{Data, DataBytes, DataRecords, DataVoid, FractalString32, FractalU14, FractalU7};
use crate::codec::{FractalData, PresetBlockStatus};
use crate::functions::FractalFunction;
use crate::model::FractalModel;
use crate::struct_generic::{FractalAudioMessage, FractalAudioMessagePacker};
use crate::text::spec_name_ascii;
use crate::error::FractalProtocolError;

verus! {

/// Firmware revision reported by the device during the handshake.
#[derive(Debug, Clone, Copy, PartialEq, Eq, Structural)]
pub struct FirmwareVersion {
    pub major: u8,
    pub minor: u8,
}

/// Generic acknowledgement frame; the discovery reply carries the model
/// in its header and zeroes in both payload bytes.
#[derive(Debug, Clone, Copy, PartialEq, Eq, Structural)]
pub struct MultipurposeResponse {
    pub model: FractalModel,
    pub function_id: u8,
    pub response_code: u8,
}

/// Current preset number together with its display name.
#[derive(Debug, Clone, PartialEq)]
pub struct PresetAndName {
    pub number: u16,
    pub name: String,
}

/// Current preset number alone.
#[derive(Debug, Clone, Copy, PartialEq, Eq, Structural)]
pub struct Preset {
    pub number: u16,
}

/// Current scene number together with its display name.
#[derive(Debug, Clone, PartialEq)]
pub struct SceneWithName {
    pub number: u8,
    pub name: String,
}

/// Current scene number alone.
#[derive(Debug, Clone, Copy, PartialEq, Eq, Structural)]
pub struct Scene {
    pub number: u8,
}

/// Echo of a scene-select request.
#[derive(Debug, Clone, Copy, PartialEq, Eq, Structural)]
pub struct SceneNameRequest {
    pub number: u8,
}

/// One block slot of the current preset.
#[derive(Debug, Clone, Copy, PartialEq, Eq, Structural)]
pub struct Block {
    pub effect_id: u8,
}

/// The block list of the current preset.
#[derive(Debug, Clone, PartialEq)]
pub struct Blocks {
    pub blocks: Vec<Block>,
}

/// The channel an effect block is switched to.
#[derive(Debug, Clone, Copy, PartialEq, Eq, Structural)]
pub enum Channel {
    A,
    B,
    C,
    D,
    E,
    F,
    G,
    H,
}

/// The channel a 3-bit wire field stands for.
pub open spec fn spec_channel_from_code(code: u8) -> Option<Channel> {
    match code {
        0u8 => Some(Channel::A),
        1u8 => Some(Channel::B),
        2u8 => Some(Channel::C),
        3u8 => Some(Channel::D),
        4u8 => Some(Channel::E),
        5u8 => Some(Channel::F),
        6u8 => Some(Channel::G),
        7u8 => Some(Channel::H),
        _ => None,
    }
}

pub fn channel_from_code(code: u8) -> (r: Option<Channel>)
    ensures
        r == spec_channel_from_code(code),
{
    match code {
        0 => Some(Channel::A),
        1 => Some(Channel::B),
        2 => Some(Channel::C),
        3 => Some(Channel::D),
        4 => Some(Channel::E),
        5 => Some(Channel::F),
        6 => Some(Channel::G),
        7 => Some(Channel::H),
        _ => None,
    }
}

/// Bypass and channel state of one effect block.
#[derive(Debug, Clone, Copy, PartialEq, Eq, Structural)]
pub struct EffectStatus {
    pub effect_id: u8,
    pub supported_channels: u8,
    pub channel: Channel,
    pub is_bypassed: bool,
}

/// The bypass and channel state of every effect block.
#[derive(Debug, Clone, PartialEq)]
pub struct Effects(pub Vec<EffectStatus>);

/// Acknowledgement of a bypass toggle.
#[derive(Debug, Clone, Copy, PartialEq, Eq, Structural)]
pub struct EffectBypassStatus {
    pub effect_id: u8,
    pub is_bypassed: bool,
}

/// The closed tagged union over every message the dispatcher knows.
#[derive(Debug, Clone)]
pub enum FractalAudioMessages {
    FirmwareVersion(FirmwareVersion),
    MultipurposeResponse(MultipurposeResponse),
    PresetAndName(PresetAndName),
    Preset(Preset),
    SceneWithName(SceneWithName),
    Scene(Scene),
    SceneNameRequest(SceneNameRequest),
    Blocks(Blocks),
    Effects(Effects),
    EffectBypassStatus(EffectBypassStatus),
    /// A structurally valid frame no registered schema claims, kept
    /// whole so higher layers can log or ignore it without losing
    /// framing integrity.
    Unknown(Vec<u8>),
}

/// Ghost view of a decoded message: names as character sequences, lists
/// as sequences, everything else as its plain value.
pub enum MessageView {
    FirmwareVersion { major: u8, minor: u8 },
    MultipurposeResponse { model: FractalModel, function_id: u8, response_code: u8 },
    PresetAndName { number: u16, name: Seq<char> },
    Preset { number: u16 },
    SceneWithName { number: u8, name: Seq<char> },
    Scene { number: u8 },
    SceneNameRequest { number: u8 },
    Blocks { blocks: Seq<Block> },
    Effects { effects: Seq<EffectStatus> },
    EffectBypassStatus { effect_id: u8, is_bypassed: bool },
    Unknown { bytes: Seq<u8> },
}

impl View for FractalAudioMessages {
    type V = MessageView;

    open spec fn view(&self) -> MessageView {
        match self {
            FractalAudioMessages::FirmwareVersion(m) => MessageView::FirmwareVersion {
                major: m.major,
                minor: m.minor,
            },
            FractalAudioMessages::MultipurposeResponse(m) => MessageView::MultipurposeResponse {
                model: m.model,
                function_id: m.function_id,
                response_code: m.response_code,
            },
            FractalAudioMessages::PresetAndName(m) => MessageView::PresetAndName {
                number: m.number,
                name: m.name@,
            },
            FractalAudioMessages::Preset(m) => MessageView::Preset { number: m.number },
            FractalAudioMessages::SceneWithName(m) => MessageView::SceneWithName {
                number: m.number,
                name: m.name@,
            },
            FractalAudioMessages::Scene(m) => MessageView::Scene { number: m.number },
            FractalAudioMessages::SceneNameRequest(m) => MessageView::SceneNameRequest {
                number: m.number,
            },
            FractalAudioMessages::Blocks(m) => MessageView::Blocks { blocks: m.blocks@ },
            FractalAudioMessages::Effects(m) => MessageView::Effects { effects: m.0@ },
            FractalAudioMessages::EffectBypassStatus(m) => MessageView::EffectBypassStatus {
                effect_id: m.effect_id,
                is_bypassed: m.is_bypassed,
            },
            FractalAudioMessages::Unknown(v) => MessageView::Unknown { bytes: v@ },
        }
    }
}


/// Raw shape of a preset-info response: preset number and name field.
pub type RawPresetAndName = FractalAudioMessage<Data<FractalU14, FractalString32>>;

/// Raw shape of a bare preset-number response.
pub type RawPreset = FractalAudioMessage<FractalU14>;

/// Raw shape of a bare scene-number response.
pub type RawScene = FractalAudioMessage<FractalU7>;

/// Raw shape of a scene response with its name field.
pub type RawSceneWithName = FractalAudioMessage<Data<FractalU7, FractalString32>>;

/// Raw shape of a firmware-version response.
pub type RawFirmwareVersion = FractalAudioMessage<Data<FractalU7, Data<FractalU7, DataBytes<5>>>>;

/// Raw shape of the shorter firmware-version response some families send.
pub type RawFirmwareVersionShort = FractalAudioMessage<
    Data<FractalU7, Data<FractalU7, DataBytes<2>>>,
>;

/// Raw shape of a multipurpose response.
pub type RawMultipurposeResponse = FractalAudioMessage<Data<FractalU7, FractalU7>>;

/// Raw shape of a block-list response.
pub type RawBlocks = FractalAudioMessage<DataRecords<PresetBlockStatus>>;

/// Raw shape of an effect-status dump.
pub type RawEffects = FractalAudioMessage<DataRecords<crate::codec::EffectStatus>>;

/// Raw shape of an effect-bypass acknowledgement.
pub type RawEffectBypass = FractalAudioMessage<Data<FractalU14, FractalU7>>;

impl FirmwareVersion {
    /// Reads the firmware version out of the long response shape.
    pub fn from_long_raw(value: &RawFirmwareVersion) -> (r: Self)
        ensures
            r.major == value.data.0.value,
            r.minor == value.data.1.0.value,
    {
        FirmwareVersion { major: value.data.0.value, minor: value.data.1.0.value }
    }

    /// Reads the firmware version out of the short response shape.
    pub fn from_short_raw(value: &RawFirmwareVersionShort) -> (r: Self)
        ensures
            r.major == value.data.0.value,
            r.minor == value.data.1.0.value,
    {
        FirmwareVersion { major: value.data.0.value, minor: value.data.1.0.value }
    }
}

impl MultipurposeResponse {
    /// Reads the acknowledgement fields and the sender's model.
    pub fn from_raw(value: &RawMultipurposeResponse) -> (r: Self)
        ensures
            r.model == value.header.model,
            r.function_id == value.data.0.value,
            r.response_code == value.data.1.value,
    {
        MultipurposeResponse {
            model: value.header.model,
            function_id: value.data.0.value,
            response_code: value.data.1.value,
        }
    }
}

impl PresetAndName {
    /// Reads the preset number and its trimmed display name.
    pub fn try_from_raw(value: &RawPresetAndName) -> (r: Result<Self, FractalProtocolError>)
        requires
            value.data.wf(),
        ensures
            r matches Ok(p) && p.number == value.data.0.spec_value() && p.name@
                == spec_name_ascii(value.data.1.data@),
    {
        let name = match value.data.1.try_as_string() {
            Some(n) => n,
            None => {
                return Err(FractalProtocolError::MessageConversionError);
            },
        };
        Ok(PresetAndName { number: value.data.0.as_u16(), name })
    }
}

impl Preset {
    /// Reads the bare preset number.
    pub fn from_raw(value: &RawPreset) -> (r: Self)
        requires
            value.data.wf(),
        ensures
            r.number == value.data.spec_value(),
    {
        Preset { number: value.data.as_u16() }
    }
}

impl SceneWithName {
    /// Reads the scene number and its trimmed display name.
    pub fn try_from_raw(value: &RawSceneWithName) -> (r: Result<Self, FractalProtocolError>)
        requires
            value.data.wf(),
        ensures
            r matches Ok(sc) && sc.number == value.data.0.value && sc.name@ == spec_name_ascii(
                value.data.1.data@,
            ),
    {
        let name = match value.data.1.try_as_string() {
            Some(n) => n,
            None => {
                return Err(FractalProtocolError::MessageConversionError);
            },
        };
        Ok(SceneWithName { number: value.data.0.value, name })
    }
}

impl Scene {
    /// Reads the bare scene number.
    pub fn from_raw(value: &RawScene) -> (r: Self)
        ensures
            r.number == value.data.value,
    {
        Scene { number: value.data.value }
    }
}

impl SceneNameRequest {
    /// Reads the echoed scene number.
    pub fn from_raw(value: &RawScene) -> (r: Self)
        ensures
            r.number == value.data.value,
    {
        SceneNameRequest { number: value.data.value }
    }
}

impl EffectBypassStatus {
    /// Reads the effect id (truncated to its low byte, as the id tables
    /// are) and the bypass flag.
    pub fn from_raw(value: &RawEffectBypass) -> (r: Self)
        requires
            value.data.wf(),
        ensures
            r.effect_id == (value.data.0.spec_value() % 256) as u8,
            r.is_bypassed == (value.data.1.value != 0),
    {
        EffectBypassStatus {
            effect_id: (value.data.0.as_u16() % 256) as u8,
            is_bypassed: value.data.1.value != 0,
        }
    }
}


/// Builders for preset queries.
pub struct PresetHelper;

/// Marker for the preset-with-name response schema.
pub struct PresetAndNameHelper;

impl PresetHelper {
    /// Query for the current preset, using the "current/any" sentinel.
    pub fn get_current_preset_info(model: FractalModel) -> (r: RawPreset)
        ensures
            r.pack_wf(),
            r.header.model == model,
            r.function == FractalFunction::PRESET_INFO,
            r.data.lsb == 0x7F,
            r.data.msb == 0x7F,
    {
        FractalAudioMessage::new(model, FractalFunction::PRESET_INFO, FractalU14::new_all())
    }

    /// Query for one preset by number.
    pub fn get_preset_info(model: FractalModel, preset: u16) -> (r: RawPreset)
        ensures
            r.pack_wf(),
            r.header.model == model,
            r.function == FractalFunction::PRESET_INFO,
            r.data.spec_value() == preset % 0x4000,
    {
        FractalAudioMessage::new(model, FractalFunction::PRESET_INFO, FractalU14::from_u16(preset))
    }
}

/// Builders for scene queries and scene selection.
pub struct SceneWithNameHelper;

/// Marker for the bare scene-number response schema.
pub struct SceneHelper;

/// Marker for the scene-select echo schema.
pub struct SceneWithNameRequestHelper;

impl SceneWithNameHelper {
    /// Query for the current scene, using the "current/any" sentinel.
    pub fn get_current_scene_info(model: FractalModel) -> (r: RawScene)
        ensures
            r.pack_wf(),
            r.header.model == model,
            r.function == FractalFunction::GET_SCENE_NAME,
            r.data.value == 0x7F,
    {
        FractalAudioMessage::new(model, FractalFunction::GET_SCENE_NAME, FractalU7::new_all())
    }

    /// Query for one scene by number.
    pub fn get_scene_info(model: FractalModel, scene: u8) -> (r: RawScene)
        ensures
            r.pack_wf(),
            r.header.model == model,
            r.function == FractalFunction::GET_SCENE_NAME,
            r.data.value == scene % 0x80,
    {
        FractalAudioMessage::new(model, FractalFunction::GET_SCENE_NAME, FractalU7::from_byte(scene))
    }

    /// Command selecting a scene.
    pub fn set_current_scene_number(model: FractalModel, scene: u8) -> (r: RawScene)
        ensures
            r.pack_wf(),
            r.header.model == model,
            r.function == FractalFunction::GET_SET_SCENE,
            r.data.value == scene % 0x80,
    {
        FractalAudioMessage::new(model, FractalFunction::GET_SET_SCENE, FractalU7::from_byte(scene))
    }
}

/// Builders for the firmware-version query.
pub struct FirmwareVersionHelper;

/// Marker for the short firmware-version response schema.
pub struct FirmwareVersionShortHelper;

impl FirmwareVersionHelper {
    /// Query for the firmware version.
    pub fn get_request(model: FractalModel) -> (r: FractalAudioMessage<DataVoid>)
        ensures
            r.pack_wf(),
            r.header.model == model,
            r.function == FractalFunction::GET_FIRMWARE_VERSION,
    {
        FractalAudioMessage::new(model, FractalFunction::GET_FIRMWARE_VERSION, DataVoid)
    }
}

/// Builders for discovery and the courtesy disconnect message.
pub struct MultipurposeResponseHelper;

impl MultipurposeResponseHelper {
    /// The fixed discovery frame: sent with the wildcard model byte, it
    /// asks any connected device to identify itself.
    pub fn get_discovery_request() -> (r: Vec<u8>)
        ensures
            r@ == seq![0xF0u8, 0x00u8, 0x01u8, 0x74u8, 0x7Fu8, 0x00u8, 0x00u8, 0x7Au8, 0xF7u8],
    {
        let mut v: Vec<u8> = Vec::new();
        v.push(0xF0);
        v.push(0x00);
        v.push(0x01);
        v.push(0x74);
        v.push(0x7F);
        v.push(0x00);
        v.push(0x00);
        v.push(0x7A);
        v.push(0xF7);
        proof {
            assert(v@ =~= seq![
                0xF0u8,
                0x00u8,
                0x01u8,
                0x74u8,
                0x7Fu8,
                0x00u8,
                0x00u8,
                0x7Au8,
                0xF7u8,
            ]);
        }
        v
    }

    /// The courtesy message releasing the controller on disconnect.
    pub fn disconnect_from_controller(model: FractalModel) -> (r: FractalAudioMessage<DataVoid>)
        ensures
            r.pack_wf(),
            r.header.model == model,
            r.function == FractalFunction::DISCONNECT_FROM_CONTROLLER,
    {
        FractalAudioMessage::new(model, FractalFunction::DISCONNECT_FROM_CONTROLLER, DataVoid)
    }
}

/// Builders for the block-list query.
pub struct BlocksHelper;

impl BlocksHelper {
    /// Query for the current preset's blocks.
    pub fn get_current_blocks(model: FractalModel) -> (r: FractalAudioMessage<DataVoid>)
        ensures
            r.pack_wf(),
            r.header.model == model,
            r.function == FractalFunction::GET_SCENE_NAME,
    {
        FractalAudioMessage::new(model, FractalFunction::GET_SCENE_NAME, DataVoid)
    }
}

/// Builders for the effect-status dump query.
pub struct EffectStatusHelper;

impl EffectStatusHelper {
    /// Query for the status of every effect block.
    pub fn get_status_dump(model: FractalModel) -> (r: FractalAudioMessage<DataVoid>)
        ensures
            r.pack_wf(),
            r.header.model == model,
            r.function == FractalFunction::STATUS_DUMP,
    {
        FractalAudioMessage::new(model, FractalFunction::STATUS_DUMP, DataVoid)
    }
}

/// Builders for bypass toggles.
pub struct EffectBypassHelper;

impl EffectBypassHelper {
    /// Command setting one effect's bypass state.
    pub fn set_effect_bypass(model: FractalModel, effect: u8, is_bypassed: bool) -> (r:
        RawEffectBypass)
        ensures
            r.pack_wf(),
            r.header.model == model,
            r.function == FractalFunction::GET_SET_EFFECT_BYPASS,
            r.data.0.spec_value() == effect,
            r.data.1.value == (if is_bypassed {
                1u8
            } else {
                0u8
            }),
    {
        let bypass = if is_bypassed {
            FractalU7 { value: 1 }
        } else {
            FractalU7 { value: 0 }
        };
        let id = FractalU14::from_u16(effect as u16);
        FractalAudioMessage::new(
            model,
            FractalFunction::GET_SET_EFFECT_BYPASS,
            Data(id, bypass),
        )
    }
}


/// The payload bytes of a frame: what stands between the function byte
/// and the footer.
pub open spec fn spec_payload(b: Seq<u8>) -> Seq<u8> {
    b.subrange(6, b.len() - 2)
}

/// The shape-independent frame checks: length, markers, manufacturer id,
/// known model and function codes, and the checksum.
pub open spec fn spec_frame_env_ok(b: Seq<u8>) -> bool {
    &&& b.len() >= 8
    &&& b[0] == 0xF0
    &&& b[1] == 0x00
    &&& b[2] == 0x01
    &&& b[3] == 0x74
    &&& crate::model::spec_model_from_code(b[4]) is Some
    &&& crate::functions::spec_function_from_code(b[5]) is Some
    &&& b[b.len() - 1] == 0xF7
    &&& b[b.len() - 2] == crate::checksum::spec_checksum(b.take(b.len() - 2))
}

/// The 14-bit value held in a payload's first two bytes, low byte first.
pub open spec fn spec_u14_of(p: Seq<u8>) -> u16 {
    (p[1] * 0x80 + p[0]) as u16
}

/// The block views a block-list payload decodes to, one per 5-byte
/// record.
pub open spec fn spec_blocks_views(p: Seq<u8>) -> Seq<Block>
    decreases p.len(),
{
    if p.len() < 5 {
        Seq::empty()
    } else {
        seq![Block { effect_id: p[3] }] + spec_blocks_views(p.skip(5))
    }
}

/// The channel a 3-bit field stands for; fields are always below 8.
pub open spec fn spec_channel_of(code: u8) -> Channel {
    match code {
        0u8 => Channel::A,
        1u8 => Channel::B,
        2u8 => Channel::C,
        3u8 => Channel::D,
        4u8 => Channel::E,
        5u8 => Channel::F,
        6u8 => Channel::G,
        _ => Channel::H,
    }
}

/// The status view one 3-byte record decodes to: the effect id truncated
/// to its low byte as the id tables are, and the unpacked flag fields.
pub open spec fn spec_effect_record_view(c: Seq<u8>) -> EffectStatus {
    EffectStatus {
        effect_id: ((c[1] % 2) * 0x80 + c[0]) as u8,
        supported_channels: c[2] / 16,
        channel: spec_channel_of((c[2] / 2) % 8),
        is_bypassed: c[2] % 2 == 1,
    }
}

/// The status views a status-dump payload decodes to, one per 3-byte
/// record.
pub open spec fn spec_effects_views(p: Seq<u8>) -> Seq<EffectStatus>
    decreases p.len(),
{
    if p.len() < 3 {
        Seq::empty()
    } else {
        seq![spec_effect_record_view(p.take(3))] + spec_effects_views(p.skip(3))
    }
}

/// Whether a frame matches the preset-with-name schema.
pub open spec fn spec_arm_preset_and_name(b: Seq<u8>) -> bool {
    &&& spec_frame_env_ok(b)
    &&& crate::functions::spec_function_from_code(b[5]) == Some(FractalFunction::PRESET_INFO)
    &&& <Data<FractalU14, FractalString32> as FractalData>::spec_accepts(spec_payload(b))
}

/// Whether a frame matches the bare preset-number schema.
pub open spec fn spec_arm_preset(b: Seq<u8>) -> bool {
    &&& spec_frame_env_ok(b)
    &&& crate::functions::spec_function_from_code(b[5]) == Some(FractalFunction::PRESET_INFO)
    &&& <FractalU14 as FractalData>::spec_accepts(spec_payload(b))
}

/// Whether a frame matches the bare scene-number schema.
pub open spec fn spec_arm_scene(b: Seq<u8>) -> bool {
    &&& spec_frame_env_ok(b)
    &&& crate::functions::spec_function_from_code(b[5]) == Some(FractalFunction::GET_SCENE_NAME)
    &&& <FractalU7 as FractalData>::spec_accepts(spec_payload(b))
}

/// Whether a frame matches the scene-with-name schema.
pub open spec fn spec_arm_scene_with_name(b: Seq<u8>) -> bool {
    &&& spec_frame_env_ok(b)
    &&& crate::functions::spec_function_from_code(b[5]) == Some(FractalFunction::GET_SCENE_NAME)
    &&& <Data<FractalU7, FractalString32> as FractalData>::spec_accepts(spec_payload(b))
}

/// Whether a frame matches the scene-select echo schema.
pub open spec fn spec_arm_scene_name_request(b: Seq<u8>) -> bool {
    &&& spec_frame_env_ok(b)
    &&& crate::functions::spec_function_from_code(b[5]) == Some(FractalFunction::GET_SET_SCENE)
    &&& <FractalU7 as FractalData>::spec_accepts(spec_payload(b))
}

/// Whether a frame matches the long firmware-version schema.
pub open spec fn spec_arm_firmware(b: Seq<u8>) -> bool {
    &&& spec_frame_env_ok(b)
    &&& crate::functions::spec_function_from_code(b[5]) == Some(
        FractalFunction::GET_FIRMWARE_VERSION,
    )
    &&& <Data<FractalU7, Data<FractalU7, DataBytes<5>>> as FractalData>::spec_accepts(
        spec_payload(b),
    )
}

/// Whether a frame matches the short firmware-version schema.
pub open spec fn spec_arm_firmware_short(b: Seq<u8>) -> bool {
    &&& spec_frame_env_ok(b)
    &&& crate::functions::spec_function_from_code(b[5]) == Some(
        FractalFunction::GET_FIRMWARE_VERSION,
    )
    &&& <Data<FractalU7, Data<FractalU7, DataBytes<2>>> as FractalData>::spec_accepts(
        spec_payload(b),
    )
}

/// Whether a frame matches the multipurpose-response schema.
pub open spec fn spec_arm_multipurpose(b: Seq<u8>) -> bool {
    &&& spec_frame_env_ok(b)
    &&& crate::functions::spec_function_from_code(b[5]) == Some(
        FractalFunction::MULTIPURPOSE_RESPONSE,
    )
    &&& <Data<FractalU7, FractalU7> as FractalData>::spec_accepts(spec_payload(b))
}

/// Whether a frame matches the block-list schema.
pub open spec fn spec_arm_blocks(b: Seq<u8>) -> bool {
    &&& spec_frame_env_ok(b)
    &&& crate::functions::spec_function_from_code(b[5]) == Some(FractalFunction::GET_SCENE_NAME)
    &&& crate::codec::records_accepts::<PresetBlockStatus>(spec_payload(b))
}

/// Whether a frame matches the effect-status dump schema.
pub open spec fn spec_arm_effects(b: Seq<u8>) -> bool {
    &&& spec_frame_env_ok(b)
    &&& crate::functions::spec_function_from_code(b[5]) == Some(FractalFunction::STATUS_DUMP)
    &&& crate::codec::records_accepts::<crate::codec::EffectStatus>(spec_payload(b))
}

/// Whether a frame matches the effect-bypass schema.
pub open spec fn spec_arm_effect_bypass(b: Seq<u8>) -> bool {
    &&& spec_frame_env_ok(b)
    &&& crate::functions::spec_function_from_code(b[5]) == Some(
        FractalFunction::GET_SET_EFFECT_BYPASS,
    )
    &&& <Data<FractalU14, FractalU7> as FractalData>::spec_accepts(spec_payload(b))
}

/// Whether a delimited frame passes every frame-level check short of a
/// known schema: markers and manufacturer id in place, only non-marker
/// bytes inside (the 7-bit payload convention), and a valid checksum.
/// Such a frame that no schema claims surfaces whole as `Unknown`.
pub open spec fn spec_arm_unknown(b: Seq<u8>) -> bool {
    &&& b.len() >= 8
    &&& b[0] == 0xF0
    &&& b[1] == 0x00
    &&& b[2] == 0x01
    &&& b[3] == 0x74
    &&& b[b.len() - 1] == 0xF7
    &&& (forall|i: int| 0 < i < b.len() - 1 ==> crate::consts::is_non_marker(#[trigger] b[i]))
    &&& b[b.len() - 2] == crate::checksum::spec_checksum(b.take(b.len() - 2))
}

/// What one resynchronized frame decodes to, trying the registered
/// schemas in their fixed order: the first whose function code and
/// payload shape both fit yields the message; a valid frame no schema
/// claims is kept whole as `Unknown`; an invalid frame yields nothing.
pub open spec fn spec_dispatch(b: Seq<u8>) -> Option<MessageView> {
    let p = spec_payload(b);
    if spec_arm_preset_and_name(b) {
        Some(
            MessageView::PresetAndName {
                number: spec_u14_of(p),
                name: spec_name_ascii(p.skip(2)),
            },
        )
    } else if spec_arm_preset(b) {
        Some(MessageView::Preset { number: spec_u14_of(p) })
    } else if spec_arm_scene(b) {
        Some(MessageView::Scene { number: p[0] })
    } else if spec_arm_scene_with_name(b) {
        Some(MessageView::SceneWithName { number: p[0], name: spec_name_ascii(p.skip(1)) })
    } else if spec_arm_scene_name_request(b) {
        Some(MessageView::SceneNameRequest { number: p[0] })
    } else if spec_arm_firmware(b) {
        Some(MessageView::FirmwareVersion { major: p[0], minor: p[1] })
    } else if spec_arm_firmware_short(b) {
        Some(MessageView::FirmwareVersion { major: p[0], minor: p[1] })
    } else if spec_arm_multipurpose(b) {
        Some(
            MessageView::MultipurposeResponse {
                model: crate::model::spec_model_from_code(b[4]).unwrap(),
                function_id: p[0],
                response_code: p[1],
            },
        )
    } else if spec_arm_blocks(b) {
        Some(MessageView::Blocks { blocks: spec_blocks_views(p) })
    } else if spec_arm_effects(b) {
        Some(MessageView::Effects { effects: spec_effects_views(p) })
    } else if spec_arm_effect_bypass(b) {
        Some(
            MessageView::EffectBypassStatus {
                effect_id: (spec_u14_of(p) % 256) as u8,
                is_bypassed: p[2] != 0,
            },
        )
    } else if spec_arm_unknown(b) {
        Some(MessageView::Unknown { bytes: b })
    } else {
        None
    }
}

/// The block views of a packed record run are its records' ids.
proof fn lemma_blocks_views(v: Seq<PresetBlockStatus>)
    requires
        forall|i: int| 0 <= i < v.len() ==> (#[trigger] v[i]).wf(),
    ensures
        spec_blocks_views(crate::codec::records_bytes(v)).len() == v.len(),
        forall|i: int|
            0 <= i < v.len() ==> spec_blocks_views(crate::codec::records_bytes(v))[i] == (Block {
                effect_id: v[i].effect_id,
            }),
    decreases v.len(),
{
    let p = crate::codec::records_bytes(v);
    if v.len() == 0 {
    } else {
        let rest = crate::codec::records_bytes(v.drop_first());
        assert(forall|i: int|
            0 <= i < v.drop_first().len() ==> (#[trigger] v.drop_first()[i]).wf());
        lemma_blocks_views(v.drop_first());
        assert(p == v[0].spec_bytes() + rest);
        assert(v[0].spec_bytes().len() == 5);
        assert(p.skip(5) =~= rest);
        assert(p[3] == v[0].spec_bytes()[3]);
        assert(p[3] == v[0].effect_id);
        assert forall|i: int|
            0 <= i < v.len() implies spec_blocks_views(p)[i] == (Block {
                effect_id: v[i].effect_id,
            }) by {
            if i > 0 {
                assert(spec_blocks_views(p)[i] == spec_blocks_views(rest)[i - 1]);
                assert(v.drop_first()[i - 1] == v[i]);
            }
        }
    }
}

/// The status views of a packed record run are its records' fields.
proof fn lemma_effects_views(v: Seq<crate::codec::EffectStatus>)
    requires
        forall|i: int| 0 <= i < v.len() ==> (#[trigger] v[i]).wf(),
    ensures
        spec_effects_views(crate::codec::records_bytes(v)).len() == v.len(),
        forall|i: int|
            0 <= i < v.len() ==> spec_effects_views(crate::codec::records_bytes(v))[i] == (
            EffectStatus {
                effect_id: ((v[i].effect_id.msb % 2) * 0x80 + v[i].effect_id.lsb) as u8,
                supported_channels: v[i].supported_channels,
                channel: spec_channel_of(v[i].channel),
                is_bypassed: v[i].is_bypassed,
            }),
    decreases v.len(),
{
    let p = crate::codec::records_bytes(v);
    if v.len() == 0 {
    } else {
        let rest = crate::codec::records_bytes(v.drop_first());
        assert(forall|i: int|
            0 <= i < v.drop_first().len() ==> (#[trigger] v.drop_first()[i]).wf());
        lemma_effects_views(v.drop_first());
        assert(p == v[0].spec_bytes() + rest);
        assert(v[0].spec_bytes().len() == 3);
        assert(p.skip(3) =~= rest);
        assert(p.take(3) =~= v[0].spec_bytes());
        let r0 = v[0];
        let sc = r0.supported_channels;
        let ch = r0.channel;
        let by: u8 = if r0.is_bypassed {
            1
        } else {
            0
        };
        assert(r0.spec_flags() == sc * 16 + ch * 2 + by);
        assert(sc < 8 && ch < 8 && by < 2 ==> (sc * 16 + ch * 2 + by) / 16 == sc && ((sc * 16 + ch
            * 2 + by) / 2) % 8 == ch && (sc * 16 + ch * 2 + by) % 2 == by) by (bit_vector);
        assert(spec_effect_record_view(p.take(3)) == EffectStatus {
            effect_id: ((r0.effect_id.msb % 2) * 0x80 + r0.effect_id.lsb) as u8,
            supported_channels: r0.supported_channels,
            channel: spec_channel_of(r0.channel),
            is_bypassed: r0.is_bypassed,
        });
        assert forall|i: int|
            0 <= i < v.len() implies spec_effects_views(p)[i] == (EffectStatus {
                effect_id: ((v[i].effect_id.msb % 2) * 0x80 + v[i].effect_id.lsb) as u8,
                supported_channels: v[i].supported_channels,
                channel: spec_channel_of(v[i].channel),
                is_bypassed: v[i].is_bypassed,
            }) by {
            if i > 0 {
                assert(spec_effects_views(p)[i] == spec_effects_views(rest)[i - 1]);
                assert(v.drop_first()[i - 1] == v[i]);
            }
        }
    }
}

impl Blocks {
    /// Reads the block list out of a raw record run.
    pub fn from_raw(value: &RawBlocks) -> (r: Self)
        requires
            value.data.wf(),
        ensures
            r.blocks@.len() == value.data.0@.len(),
            forall|i: int|
                0 <= i < r.blocks@.len() ==> r.blocks@[i] == (Block {
                    effect_id: value.data.0@[i].effect_id,
                }),
    {
        let mut blocks: Vec<Block> = Vec::new();
        let mut i: usize = 0;
        while i < value.data.0.len()
            invariant
                i <= value.data.0@.len(),
                blocks@.len() == i,
                forall|j: int|
                    0 <= j < i ==> blocks@[j] == (Block { effect_id: value.data.0@[j].effect_id }),
            decreases value.data.0@.len() - i,
        {
            blocks.push(Block { effect_id: value.data.0[i].effect_id });
            i = i + 1;
        }
        Blocks { blocks }
    }
}

impl Effects {
    /// Reads the status list out of a raw record run.
    pub fn from_raw(value: &RawEffects) -> (r: Self)
        requires
            value.data.wf(),
        ensures
            r.0@.len() == value.data.0@.len(),
            forall|i: int|
                0 <= i < r.0@.len() ==> r.0@[i] == (EffectStatus {
                    effect_id: ((value.data.0@[i].effect_id.msb % 2) * 0x80
                        + value.data.0@[i].effect_id.lsb) as u8,
                    supported_channels: value.data.0@[i].supported_channels,
                    channel: spec_channel_of(value.data.0@[i].channel),
                    is_bypassed: value.data.0@[i].is_bypassed,
                }),
    {
        let mut out: Vec<EffectStatus> = Vec::new();
        let mut i: usize = 0;
        while i < value.data.0.len()
            invariant
                i <= value.data.0@.len(),
                value.data.wf(),
                out@.len() == i,
                forall|j: int|
                    0 <= j < i ==> out@[j] == (EffectStatus {
                        effect_id: ((value.data.0@[j].effect_id.msb % 2) * 0x80
                            + value.data.0@[j].effect_id.lsb) as u8,
                        supported_channels: value.data.0@[j].supported_channels,
                        channel: spec_channel_of(value.data.0@[j].channel),
                        is_bypassed: value.data.0@[j].is_bypassed,
                    }),
            decreases value.data.0@.len() - i,
        {
            let rec = value.data.0[i];
            proof {
                assert(value.data.0@[i as int].wf());
            }
            let id8: u8 = (rec.effect_id.msb % 2) * 0x80 + rec.effect_id.lsb;
            let channel = match channel_from_code(rec.channel) {
                Some(c) => c,
                None => Channel::A,
            };
            proof {
                assert(channel == spec_channel_of(rec.channel));
            }
            out.push(
                EffectStatus {
                    effect_id: id8,
                    supported_channels: rec.supported_channels,
                    channel,
                    is_bypassed: rec.is_bypassed,
                },
            );
            i = i + 1;
        }
        Effects(out)
    }
}


/// For payload shapes made of plain integers the codec round trip is
/// value-exact: two well-formed bare-scene messages with the same wire
/// bytes are the same value, so a decode of a packed message reproduces
/// the message itself, not merely its bytes.
pub proof fn lemma_codec_round_trip_exact_scene(m1: RawScene, m2: RawScene)
    requires
        m1.wf(),
        m2.wf(),
        m1.spec_bytes() == m2.spec_bytes(),
    ensures
        m1 == m2,
{
    FractalAudioMessage::<FractalU7>::lemma_codec_round_trip(m1, m2);
    assert(m1.data.spec_bytes()[0] == m1.data.value);
    assert(m2.data.spec_bytes()[0] == m2.data.value);
}

/// As `lemma_codec_round_trip_exact_scene`, for the bare preset-number
/// schema.
pub proof fn lemma_codec_round_trip_exact_preset(m1: RawPreset, m2: RawPreset)
    requires
        m1.wf(),
        m2.wf(),
        m1.spec_bytes() == m2.spec_bytes(),
    ensures
        m1 == m2,
{
    FractalAudioMessage::<FractalU14>::lemma_codec_round_trip(m1, m2);
    assert(m1.data.spec_bytes()[0] == m1.data.lsb);
    assert(m2.data.spec_bytes()[0] == m2.data.lsb);
    assert(m1.data.spec_bytes()[1] == m1.data.msb);
    assert(m2.data.spec_bytes()[1] == m2.data.msb);
}

/// The codec round-trip law at the dispatcher, for the preset-info
/// schema: a well-formed packed preset-and-name message dispatches back
/// to exactly its preset number and trimmed name.
pub proof fn lemma_dispatch_round_trip_preset_and_name(m: RawPresetAndName)
    requires
        m.wf(),
        m.function == FractalFunction::PRESET_INFO,
    ensures
        spec_dispatch(m.spec_bytes()) == Some(
            MessageView::PresetAndName {
                number: m.data.0.spec_value(),
                name: spec_name_ascii(m.data.1.data@),
            },
        ),
{
    let b = m.spec_bytes();
    let p = spec_payload(b);
    m.lemma_wf_frame_accepts();
    lemma_frame_accepts_env::<Data<FractalU14, FractalString32>>(b);
    assert(b[5] == crate::functions::spec_function_code(m.function));
    crate::functions::lemma_function_code_round_trip(m.function);
    assert(spec_arm_preset_and_name(b));
    assert(m.data.spec_bytes() =~= p);
    assert(m.data.0.spec_bytes().len() == 2);
    assert(p[0] == m.data.0.lsb);
    assert(p[1] == m.data.0.msb);
    assert(m.data.1.data@ =~= p.skip(2));
}

/// The codec round-trip law at the dispatcher, for the multipurpose
/// response schema: a well-formed packed acknowledgement dispatches back
/// to exactly its model, function id and response code.
pub proof fn lemma_dispatch_round_trip_multipurpose(m: RawMultipurposeResponse)
    requires
        m.wf(),
        m.function == FractalFunction::MULTIPURPOSE_RESPONSE,
    ensures
        spec_dispatch(m.spec_bytes()) == Some(
            MessageView::MultipurposeResponse {
                model: m.header.model,
                function_id: m.data.0.value,
                response_code: m.data.1.value,
            },
        ),
{
    let b = m.spec_bytes();
    let p = spec_payload(b);
    m.lemma_wf_frame_accepts();
    lemma_frame_accepts_env::<Data<FractalU7, FractalU7>>(b);
    assert(b[5] == crate::functions::spec_function_code(m.function));
    crate::functions::lemma_function_code_round_trip(m.function);
    assert(spec_arm_multipurpose(b));
    assert(m.data.spec_bytes() =~= p);
    assert(m.data.0.spec_bytes().len() == 1);
    assert(p[0] == m.data.0.value);
    assert(p[1] == m.data.1.value);
    assert(b[4] == crate::model::spec_model_code(m.header.model));
    crate::model::lemma_model_code_round_trip(m.header.model);
}

/// The codec round-trip law at the dispatcher, for the scene-with-name
/// schema.
pub proof fn lemma_dispatch_round_trip_scene_with_name(m: RawSceneWithName)
    requires
        m.wf(),
        m.function == FractalFunction::GET_SCENE_NAME,
    ensures
        spec_dispatch(m.spec_bytes()) == Some(
            MessageView::SceneWithName {
                number: m.data.0.value,
                name: spec_name_ascii(m.data.1.data@),
            },
        ),
{
    let b = m.spec_bytes();
    let p = spec_payload(b);
    m.lemma_wf_frame_accepts();
    lemma_frame_accepts_env::<Data<FractalU7, FractalString32>>(b);
    assert(b[5] == crate::functions::spec_function_code(m.function));
    crate::functions::lemma_function_code_round_trip(m.function);
    assert(spec_arm_scene_with_name(b));
    assert(m.data.spec_bytes() =~= p);
    assert(m.data.0.spec_bytes().len() == 1);
    assert(p[0] == m.data.0.value);
    assert(m.data.1.data@ =~= p.skip(1));
}

/// Frame acceptance splits into the shape-independent checks and the
/// payload shape's own acceptance.
proof fn lemma_frame_accepts_env<T: FractalData>(b: Seq<u8>)
    ensures
        crate::struct_generic::spec_frame_accepts::<T>(b) == (spec_frame_env_ok(b)
            && T::spec_accepts(spec_payload(b))),
{
}

fn try_preset_and_name(msg: &[u8]) -> (r: Option<FractalAudioMessages>)
    ensures
        (r is Some) == spec_arm_preset_and_name(msg@),
        r matches Some(m) ==> m@ == (MessageView::PresetAndName {
            number: spec_u14_of(spec_payload(msg@)),
            name: spec_name_ascii(spec_payload(msg@).skip(2)),
        }),
{
    let ghost b = msg@;
    let ghost p = spec_payload(b);
    proof {
        lemma_frame_accepts_env::<Data<FractalU14, FractalString32>>(b);
    }
    match RawPresetAndName::unpack_checked(msg) {
        Ok(m) => {
            proof {
                assert(b[5] == m.spec_bytes()[5]);
                assert(b[5] == crate::functions::spec_function_code(m.function));
                crate::functions::lemma_function_code_round_trip(m.function);
            }
            if m.function == FractalFunction::PRESET_INFO {
                proof {
                    assert(m.data.spec_bytes() =~= p);
                    assert(m.data.0.spec_bytes().len() == 2);
                    assert(p[0] == m.data.0.lsb);
                    assert(p[1] == m.data.0.msb);
                    assert(m.data.1.data@ =~= p.skip(2));
                }
                match PresetAndName::try_from_raw(&m) {
                    Ok(pan) => Some(FractalAudioMessages::PresetAndName(pan)),
                    Err(_) => {
                        proof {
                            assert(false);
                        }
                        None
                    },
                }
            } else {
                None
            }
        },
        Err(_) => None,
    }
}

fn try_preset(msg: &[u8]) -> (r: Option<FractalAudioMessages>)
    ensures
        (r is Some) == spec_arm_preset(msg@),
        r matches Some(m) ==> m@ == (MessageView::Preset {
            number: spec_u14_of(spec_payload(msg@)),
        }),
{
    let ghost b = msg@;
    let ghost p = spec_payload(b);
    proof {
        lemma_frame_accepts_env::<FractalU14>(b);
    }
    match RawPreset::unpack_checked(msg) {
        Ok(m) => {
            proof {
                assert(b[5] == m.spec_bytes()[5]);
                assert(b[5] == crate::functions::spec_function_code(m.function));
                crate::functions::lemma_function_code_round_trip(m.function);
            }
            if m.function == FractalFunction::PRESET_INFO {
                proof {
                    assert(m.data.spec_bytes() =~= p);
                    assert(p[0] == m.data.lsb);
                    assert(p[1] == m.data.msb);
                }
                Some(FractalAudioMessages::Preset(Preset::from_raw(&m)))
            } else {
                None
            }
        },
        Err(_) => None,
    }
}

fn try_scene_or_request(msg: &[u8]) -> (r: Option<FractalAudioMessages>)
    ensures
        (r is Some) == (spec_arm_scene(msg@) || spec_arm_scene_name_request(msg@)),
        r matches Some(m) ==> {
            &&& spec_arm_scene(msg@) ==> m@ == (MessageView::Scene {
                number: spec_payload(msg@)[0],
            })
            &&& spec_arm_scene_name_request(msg@) ==> m@ == (MessageView::SceneNameRequest {
                number: spec_payload(msg@)[0],
            })
        },
{
    let ghost b = msg@;
    let ghost p = spec_payload(b);
    proof {
        lemma_frame_accepts_env::<FractalU7>(b);
    }
    match RawScene::unpack_checked(msg) {
        Ok(m) => {
            proof {
                assert(b[5] == m.spec_bytes()[5]);
                assert(b[5] == crate::functions::spec_function_code(m.function));
                crate::functions::lemma_function_code_round_trip(m.function);
                assert(m.data.spec_bytes() =~= p);
                assert(p[0] == m.data.value);
            }
            if m.function == FractalFunction::GET_SCENE_NAME {
                Some(FractalAudioMessages::Scene(Scene::from_raw(&m)))
            } else if m.function == FractalFunction::GET_SET_SCENE {
                Some(FractalAudioMessages::SceneNameRequest(SceneNameRequest::from_raw(&m)))
            } else {
                None
            }
        },
        Err(_) => None,
    }
}

fn try_scene_with_name(msg: &[u8]) -> (r: Option<FractalAudioMessages>)
    ensures
        (r is Some) == spec_arm_scene_with_name(msg@),
        r matches Some(m) ==> m@ == (MessageView::SceneWithName {
            number: spec_payload(msg@)[0],
            name: spec_name_ascii(spec_payload(msg@).skip(1)),
        }),
{
    let ghost b = msg@;
    let ghost p = spec_payload(b);
    proof {
        lemma_frame_accepts_env::<Data<FractalU7, FractalString32>>(b);
    }
    match RawSceneWithName::unpack_checked(msg) {
        Ok(m) => {
            proof {
                assert(b[5] == m.spec_bytes()[5]);
                assert(b[5] == crate::functions::spec_function_code(m.function));
                crate::functions::lemma_function_code_round_trip(m.function);
            }
            if m.function == FractalFunction::GET_SCENE_NAME {
                proof {
                    assert(m.data.spec_bytes() =~= p);
                    assert(m.data.0.spec_bytes().len() == 1);
                    assert(p[0] == m.data.0.value);
                    assert(m.data.1.data@ =~= p.skip(1));
                }
                match SceneWithName::try_from_raw(&m) {
                    Ok(sn) => Some(FractalAudioMessages::SceneWithName(sn)),
                    Err(_) => {
                        proof {
                            assert(false);
                        }
                        None
                    },
                }
            } else {
                None
            }
        },
        Err(_) => None,
    }
}

fn try_firmware(msg: &[u8]) -> (r: Option<FractalAudioMessages>)
    ensures
        (r is Some) == spec_arm_firmware(msg@),
        r matches Some(m) ==> m@ == (MessageView::FirmwareVersion {
            major: spec_payload(msg@)[0],
            minor: spec_payload(msg@)[1],
        }),
{
    let ghost b = msg@;
    let ghost p = spec_payload(b);
    proof {
        lemma_frame_accepts_env::<Data<FractalU7, Data<FractalU7, DataBytes<5>>>>(b);
    }
    match RawFirmwareVersion::unpack_checked(msg) {
        Ok(m) => {
            proof {
                assert(b[5] == m.spec_bytes()[5]);
                assert(b[5] == crate::functions::spec_function_code(m.function));
                crate::functions::lemma_function_code_round_trip(m.function);
            }
            if m.function == FractalFunction::GET_FIRMWARE_VERSION {
                proof {
                    assert(m.data.spec_bytes() =~= p);
                    assert(m.data.0.spec_bytes().len() == 1);
                    assert(m.data.1.0.spec_bytes().len() == 1);
                    assert(p[0] == m.data.0.value);
                    assert(p[1] == m.data.1.spec_bytes()[0]);
                    assert(p[1] == m.data.1.0.value);
                }
                Some(FractalAudioMessages::FirmwareVersion(FirmwareVersion::from_long_raw(&m)))
            } else {
                None
            }
        },
        Err(_) => None,
    }
}

fn try_firmware_short(msg: &[u8]) -> (r: Option<FractalAudioMessages>)
    ensures
        (r is Some) == spec_arm_firmware_short(msg@),
        r matches Some(m) ==> m@ == (MessageView::FirmwareVersion {
            major: spec_payload(msg@)[0],
            minor: spec_payload(msg@)[1],
        }),
{
    let ghost b = msg@;
    let ghost p = spec_payload(b);
    proof {
        lemma_frame_accepts_env::<Data<FractalU7, Data<FractalU7, DataBytes<2>>>>(b);
    }
    match RawFirmwareVersionShort::unpack_checked(msg) {
        Ok(m) => {
            proof {
                assert(b[5] == m.spec_bytes()[5]);
                assert(b[5] == crate::functions::spec_function_code(m.function));
                crate::functions::lemma_function_code_round_trip(m.function);
            }
            if m.function == FractalFunction::GET_FIRMWARE_VERSION {
                proof {
                    assert(m.data.spec_bytes() =~= p);
                    assert(m.data.0.spec_bytes().len() == 1);
                    assert(m.data.1.0.spec_bytes().len() == 1);
                    assert(p[0] == m.data.0.value);
                    assert(p[1] == m.data.1.spec_bytes()[0]);
                    assert(p[1] == m.data.1.0.value);
                }
                Some(FractalAudioMessages::FirmwareVersion(FirmwareVersion::from_short_raw(&m)))
            } else {
                None
            }
        },
        Err(_) => None,
    }
}

fn try_multipurpose(msg: &[u8]) -> (r: Option<FractalAudioMessages>)
    ensures
        (r is Some) == spec_arm_multipurpose(msg@),
        r matches Some(m) ==> m@ == (MessageView::MultipurposeResponse {
            model: crate::model::spec_model_from_code(msg@[4]).unwrap(),
            function_id: spec_payload(msg@)[0],
            response_code: spec_payload(msg@)[1],
        }),
{
    let ghost b = msg@;
    let ghost p = spec_payload(b);
    proof {
        lemma_frame_accepts_env::<Data<FractalU7, FractalU7>>(b);
    }
    match RawMultipurposeResponse::unpack_checked(msg) {
        Ok(m) => {
            proof {
                assert(b[5] == m.spec_bytes()[5]);
                assert(b[5] == crate::functions::spec_function_code(m.function));
                crate::functions::lemma_function_code_round_trip(m.function);
            }
            if m.function == FractalFunction::MULTIPURPOSE_RESPONSE {
                proof {
                    assert(m.data.spec_bytes() =~= p);
                    assert(m.data.0.spec_bytes().len() == 1);
                    assert(p[0] == m.data.0.value);
                    assert(p[1] == m.data.1.value);
                    assert(b[4] == m.spec_bytes()[4]);
                    assert(b[4] == crate::model::spec_model_code(m.header.model));
                    crate::model::lemma_model_code_round_trip(m.header.model);
                }
                Some(FractalAudioMessages::MultipurposeResponse(MultipurposeResponse::from_raw(&m)))
            } else {
                None
            }
        },
        Err(_) => None,
    }
}

fn try_blocks(msg: &[u8]) -> (r: Option<FractalAudioMessages>)
    ensures
        (r is Some) == spec_arm_blocks(msg@),
        r matches Some(m) ==> m@ == (MessageView::Blocks {
            blocks: spec_blocks_views(spec_payload(msg@)),
        }),
{
    let ghost b = msg@;
    let ghost p = spec_payload(b);
    proof {
        lemma_frame_accepts_env::<DataRecords<PresetBlockStatus>>(b);
    }
    match RawBlocks::unpack_checked(msg) {
        Ok(m) => {
            proof {
                assert(b[5] == m.spec_bytes()[5]);
                assert(b[5] == crate::functions::spec_function_code(m.function));
                crate::functions::lemma_function_code_round_trip(m.function);
            }
            if m.function == FractalFunction::GET_SCENE_NAME {
                proof {
                    assert(m.data.spec_bytes() =~= p);
                    lemma_blocks_views(m.data.0@);
                }
                let bl = Blocks::from_raw(&m);
                proof {
                    assert(bl.blocks@ =~= spec_blocks_views(p));
                }
                Some(FractalAudioMessages::Blocks(bl))
            } else {
                None
            }
        },
        Err(_) => None,
    }
}

fn try_effects(msg: &[u8]) -> (r: Option<FractalAudioMessages>)
    ensures
        (r is Some) == spec_arm_effects(msg@),
        r matches Some(m) ==> m@ == (MessageView::Effects {
            effects: spec_effects_views(spec_payload(msg@)),
        }),
{
    let ghost b = msg@;
    let ghost p = spec_payload(b);
    proof {
        lemma_frame_accepts_env::<DataRecords<crate::codec::EffectStatus>>(b);
    }
    match RawEffects::unpack_checked(msg) {
        Ok(m) => {
            proof {
                assert(b[5] == m.spec_bytes()[5]);
                assert(b[5] == crate::functions::spec_function_code(m.function));
                crate::functions::lemma_function_code_round_trip(m.function);
            }
            if m.function == FractalFunction::STATUS_DUMP {
                proof {
                    assert(m.data.spec_bytes() =~= p);
                    lemma_effects_views(m.data.0@);
                }
                let ef = Effects::from_raw(&m);
                proof {
                    assert(ef.0@ =~= spec_effects_views(p));
                }
                Some(FractalAudioMessages::Effects(ef))
            } else {
                None
            }
        },
        Err(_) => None,
    }
}

fn try_effect_bypass(msg: &[u8]) -> (r: Option<FractalAudioMessages>)
    ensures
        (r is Some) == spec_arm_effect_bypass(msg@),
        r matches Some(m) ==> m@ == (MessageView::EffectBypassStatus {
            effect_id: (spec_u14_of(spec_payload(msg@)) % 256) as u8,
            is_bypassed: spec_payload(msg@)[2] != 0,
        }),
{
    let ghost b = msg@;
    let ghost p = spec_payload(b);
    proof {
        lemma_frame_accepts_env::<Data<FractalU14, FractalU7>>(b);
    }
    match RawEffectBypass::unpack_checked(msg) {
        Ok(m) => {
            proof {
                assert(b[5] == m.spec_bytes()[5]);
                assert(b[5] == crate::functions::spec_function_code(m.function));
                crate::functions::lemma_function_code_round_trip(m.function);
            }
            if m.function == FractalFunction::GET_SET_EFFECT_BYPASS {
                proof {
                    assert(m.data.spec_bytes() =~= p);
                    assert(m.data.0.spec_bytes().len() == 2);
                    assert(p[0] == m.data.0.lsb);
                    assert(p[1] == m.data.0.msb);
                    assert(p[2] == m.data.1.value);
                }
                Some(FractalAudioMessages::EffectBypassStatus(EffectBypassStatus::from_raw(&m)))
            } else {
                None
            }
        },
        Err(_) => None,
    }
}

/// Whether a delimited candidate is a structurally valid frame short of
/// its schema: markers, manufacturer id, marker-free interior, checksum.
fn unknown_frame_ok(msg: &[u8]) -> (r: bool)
    ensures
        r == spec_arm_unknown(msg@),
{
    let n = msg.len();
    if n < 8 || msg[0] != 0xF0 || msg[1] != 0x00 || msg[2] != 0x01 || msg[3] != 0x74 || msg[n - 1]
        != 0xF7 {
        return false;
    }
    let body = &msg[0..n - 2];
    proof {
        assert(body@ =~= msg@.take(n - 2));
    }
    if crate::checksum::calc_checksum(body) != msg[n - 2] {
        return false;
    }
    let mut i: usize = 1;
    while i < n - 1
        invariant
            1 <= i <= n - 1,
            n == msg@.len(),
            n >= 8,
            forall|j: int| 0 < j < i ==> crate::consts::is_non_marker(#[trigger] msg@[j]),
        decreases n - 1 - i,
    {
        if msg[i] == 0xF0 || msg[i] == 0xF7 {
            return false;
        }
        i = i + 1;
    }
    true
}

/// Decodes one resynchronized frame by trying the registered schemas in
/// order, exactly as `spec_dispatch` describes; a structurally valid
/// frame no schema matches is kept whole as `Unknown` rather than
/// dropped, and only an invalid candidate is reported as an error.
pub fn parse_sysex_message(msg: &[u8]) -> (r: Result<FractalAudioMessages, FractalProtocolError>)
    ensures
        r matches Ok(m) ==> spec_dispatch(msg@) == Some(m@),
        (r is Ok) == (spec_dispatch(msg@) is Some),
        r matches Err(e) ==> e is UnknownMessage,
{
    if let Some(m) = try_preset_and_name(msg) {
        return Ok(m);
    }
    if let Some(m) = try_preset(msg) {
        return Ok(m);
    }
    if let Some(m) = try_scene_or_request(msg) {
        return Ok(m);
    }
    if let Some(m) = try_scene_with_name(msg) {
        return Ok(m);
    }
    if let Some(m) = try_firmware(msg) {
        return Ok(m);
    }
    if let Some(m) = try_firmware_short(msg) {
        return Ok(m);
    }
    if let Some(m) = try_multipurpose(msg) {
        return Ok(m);
    }
    if let Some(m) = try_blocks(msg) {
        return Ok(m);
    }
    if let Some(m) = try_effects(msg) {
        return Ok(m);
    }
    if let Some(m) = try_effect_bypass(msg) {
        return Ok(m);
    }
    if unknown_frame_ok(msg) {
        let raw = vstd::slice::slice_to_vec(msg);
        return Ok(FractalAudioMessages::Unknown(raw));
    }
    Err(FractalProtocolError::UnknownMessage)
}


proof fn lemma_blocks_records_non_marker(p: Seq<u8>)
    requires
        crate::codec::records_accepts::<PresetBlockStatus>(p),
    ensures
        forall|i: int| 0 <= i < p.len() ==> crate::consts::is_non_marker(#[trigger] p[i]),
    decreases p.len(),
{
    if p.len() == 0 {
    } else {
        lemma_blocks_records_non_marker(p.skip(5));
        assert forall|i: int| 0 <= i < p.len() implies crate::consts::is_non_marker(
            #[trigger] p[i],
        ) by {
            if i < 5 {
                assert(p.take(5)[i] == p[i]);
            } else {
                assert(p.skip(5)[i - 5] == p[i]);
            }
        }
    }
}

proof fn lemma_effects_records_non_marker(p: Seq<u8>)
    requires
        crate::codec::records_accepts::<crate::codec::EffectStatus>(p),
    ensures
        forall|i: int| 0 <= i < p.len() ==> crate::consts::is_non_marker(#[trigger] p[i]),
    decreases p.len(),
{
    if p.len() == 0 {
    } else {
        lemma_effects_records_non_marker(p.skip(3));
        assert forall|i: int| 0 <= i < p.len() implies crate::consts::is_non_marker(
            #[trigger] p[i],
        ) by {
            if i < 3 {
                assert(p.take(3)[i] == p[i]);
            } else {
                assert(p.skip(3)[i - 3] == p[i]);
            }
        }
    }
}

/// A frame the dispatcher decodes has unique marker positions: the start
/// marker only at its head, the end marker only at its tail, and the
/// full shape-independent frame checks hold of it.
pub proof fn lemma_dispatch_frame_markers(f: Seq<u8>)
    requires
        spec_dispatch(f) is Some,
    ensures
        f.len() >= 8,
        f[0] == 0xF0,
        f[1] == 0x00,
        f[2] == 0x01,
        f[3] == 0x74,
        f[f.len() - 1] == 0xF7,
        f[f.len() - 2] == crate::checksum::spec_checksum(f.take(f.len() - 2)),
        forall|i: int| 0 < i < f.len() - 1 ==> crate::consts::is_non_marker(#[trigger] f[i]),
{
    let typed = spec_arm_preset_and_name(f) || spec_arm_preset(f) || spec_arm_scene(f)
        || spec_arm_scene_with_name(f) || spec_arm_scene_name_request(f) || spec_arm_firmware(f)
        || spec_arm_firmware_short(f) || spec_arm_multipurpose(f) || spec_arm_blocks(f)
        || spec_arm_effects(f) || spec_arm_effect_bypass(f);
    if !typed {
        assert(spec_arm_unknown(f));
    } else {
        let p = spec_payload(f);
        assert(spec_frame_env_ok(f));
        crate::model::lemma_model_code_inverse(f[4]);
        crate::model::lemma_model_code_round_trip(crate::model::spec_model_from_code(f[4]).unwrap());
        crate::functions::lemma_function_code_inverse(f[5]);
        crate::functions::lemma_function_code_round_trip(
            crate::functions::spec_function_from_code(f[5]).unwrap(),
        );
        assert(f[4] < 0x80);
        assert(f[5] < 0x80);
        let crc_base = crate::checksum::xor_fold(f.take(f.len() - 2));
        assert((crc_base & 0x7F) < 0x80) by (bit_vector);
        assert(f[f.len() - 2] < 0x80);
        assert(forall|i: int|
            0 <= i < p.len() ==> crate::consts::is_non_marker(#[trigger] p[i])) by {
            if spec_arm_blocks(f) && !(spec_arm_preset_and_name(f) || spec_arm_preset(f)
                || spec_arm_scene(f) || spec_arm_scene_with_name(f) || spec_arm_scene_name_request(f)
                || spec_arm_firmware(f) || spec_arm_firmware_short(f) || spec_arm_multipurpose(f)) {
                lemma_blocks_records_non_marker(p);
            } else if spec_arm_effects(f) {
                lemma_effects_records_non_marker(p);
            } else {
                assert forall|i: int| 0 <= i < p.len() implies crate::consts::is_non_marker(
                    #[trigger] p[i],
                ) by {
                    if spec_arm_preset_and_name(f) {
                        if i >= 2 {
                            assert(p.skip(2)[i - 2] == p[i]);
                            assert(p.skip(2)[i - 2] < 0x80);
                        } else {
                            assert(p.take(2)[i] == p[i]);
                        }
                    } else if spec_arm_preset(f) || spec_arm_scene(f) || spec_arm_scene_name_request(
                        f,
                    ) || spec_arm_multipurpose(f) {
                    } else if spec_arm_scene_with_name(f) {
                        if i >= 1 {
                            assert(p.skip(1)[i - 1] == p[i]);
                            assert(p.skip(1)[i - 1] < 0x80);
                        } else {
                            assert(p.take(1)[i] == p[i]);
                        }
                    } else if spec_arm_firmware(f) {
                        let q = p.skip(1);
                        if i == 0 {
                            assert(p.take(1)[0] == p[0]);
                        } else if i == 1 {
                            assert(q[i - 1] == p[i]);
                            assert(q.take(1)[0] == q[0]);
                        } else {
                            assert(q[i - 1] == p[i]);
                            assert(q.skip(1)[i - 2] == q[i - 1]);
                        }
                    } else if spec_arm_firmware_short(f) {
                        let q = p.skip(1);
                        if i == 0 {
                            assert(p.take(1)[0] == p[0]);
                        } else if i == 1 {
                            assert(q[i - 1] == p[i]);
                            assert(q.take(1)[0] == q[0]);
                        } else {
                            assert(q[i - 1] == p[i]);
                            assert(q.skip(1)[i - 2] == q[i - 1]);
                        }
                    } else if spec_arm_effect_bypass(f) {
                        if i >= 2 {
                            assert(p.skip(2)[i - 2] == p[i]);
                        } else {
                            assert(p.take(2)[i] == p[i]);
                        }
                    } else {
                        assert(false);
                    }
                }
            }
        }
        assert forall|i: int| 0 < i < f.len() - 1 implies crate::consts::is_non_marker(
            #[trigger] f[i],
        ) by {
            if 6 <= i < f.len() - 2 {
                assert(p[i - 6] == f[i]);
            }
        }
    }
}

/// A candidate slice holding a frame marker anywhere in its interior
/// never dispatches.
pub proof fn lemma_interior_marker_no_dispatch(g: Seq<u8>, k: int)
    requires
        0 < k < g.len() - 1,
        !crate::consts::is_non_marker(g[k]),
    ensures
        spec_dispatch(g) is None,
{
    if spec_dispatch(g) is Some {
        lemma_dispatch_frame_markers(g);
        assert(false);
    }
}

} // verus!
