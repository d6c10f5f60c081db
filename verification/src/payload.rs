//! The command/event surface between the session actor and its user
//! interface: inbound commands and outbound events, exchanged over
//! channels; the one contract the presentation layer needs.

use vstd::prelude::*;
use crate::error::FractalCoreError;
use crate::messages::{Blocks, EffectBypassStatus, Effects, PresetAndName, SceneWithName};
use crate::model::FractalDevice;
use crate::transport::Endpoint;

verus! {

/// Commands into and events out of the session actor.
#[derive(Debug, Clone)]
pub enum UiPayload {
    Connection(PayloadConnection),
    DeviceState(DeviceState),
    RequestAllPresets,
    Presets(Vec<PresetAndName>),
    RequestScenes,
    Scenes(Vec<SceneWithName>),
    RequestCurrentBlocks,
    CurrentBlocks(Blocks),
    RequestEffectStatus,
    EffectStatus(Effects),
    SetEffectBypass { effect: u8, is_bypassed: bool },
    EffectBypassStatus(EffectBypassStatus),
    ProgressReport { i: usize, total: usize },
    /// Internal keep-alive.
    Ping,
    /// Hard shutdown.
    Drop,
}

/// The connection-related commands and events.
#[derive(Debug, Clone)]
pub enum PayloadConnection {
    ListEndpoints,
    DetectedEndpoints { endpoints: Vec<Endpoint> },
    ConnectToEndpoint(Endpoint),
    TryToAutoConnect,
    AutoConnectDeviceNotFound,
    Disconnect,
    ConnectionFailed(FractalCoreError),
    Connected { device: FractalDevice },
    Disconnected,
    /// The session is giving itself up after the bounded run of
    /// consecutive poll failures, with the causing error attached; the
    /// disconnect that follows is thereby told apart from one the user
    /// asked for.
    PollFailuresExhausted(FractalCoreError),
}

/// The state-related commands and events.
#[derive(Debug, Clone)]
pub enum DeviceState {
    PresetAndScene(PresetAndScene),
    SetPreset { preset: u16 },
    SetScene { scene: u8 },
    DeltaPreset { delta: i16 },
    DeltaScene { delta: i8 },
}

/// The state snapshot events carry to the user interface.
#[derive(Debug, Clone)]
pub struct PresetAndScene {
    pub preset: u16,
    pub preset_name: String,
    pub scene: u8,
    pub scene_name: String,
}

impl Default for PresetAndScene {
    fn default() -> (r: Self)
        ensures
            r.preset == 0,
            r.preset_name@ == Seq::<char>::empty(),
            r.scene == 0,
            r.scene_name@ == Seq::<char>::empty(),
    {
        PresetAndScene {
            preset: 0,
            preset_name: String::new(),
            scene: 0,
            scene_name: String::new(),
        }
    }
}

} // verus!
