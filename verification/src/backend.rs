//! The device session actor's decision core: one owner of the active
//! connection and its last-known state, stepped by commands and poll
//! outcomes, emitting the writes and events each step requires. The
//! event loop, the transport and the timers around it only perform what
//! these steps decide.

use vstd::prelude::*;
use crate::correlator::{filter_first, FilterMatch, ResponseFilter};
use crate::error::{FractalCoreError, FractalResult};
use crate::messages::{
    FirmwareVersion, FractalAudioMessages, PresetAndName, SceneWithName, SceneWithNameHelper,
};
use crate::model::{FractalDevice, FractalModel};
use crate::payload::{PayloadConnection, PresetAndScene, UiPayload};
use crate::state::{DeviceState, DeviceStateView};
use crate::transport::Endpoint;

verus! {

/// Consecutive poll failures tolerated before the session gives up.
pub const MAX_POLL_FAILURES: u8 = 5;

/// The outside work one actor step asks for; the event loop performs it
/// and feeds the outcome back as the next step.
#[derive(Debug, Clone)]
pub enum BackendAction {
    /// Publish a payload on the broadcast channel.
    Send(UiPayload),
    /// Write raw bytes to the connected transport.
    WriteBytes(Vec<u8>),
    /// Run an immediate out-of-cycle status poll after a settle delay.
    Poll,
    /// Start the periodic status poller.
    StartPoller,
    /// Stop the periodic status poller.
    StopPoller,
    /// List the endpoints of every transport.
    DetectEndpoints,
    /// Run the connect handshake against one endpoint.
    Connect(Endpoint),
    /// Probe every endpoint and connect to the first that answers.
    AutoConnect,
    /// Fetch every preset by correlated request, reporting progress.
    FetchPresets { count: u16 },
    /// Fetch every scene by correlated request.
    FetchScenes { count: u8 },
    /// Fetch the current preset's block list.
    FetchBlocks,
    /// Fetch the status of every effect block.
    FetchEffectStatus,
    /// Toggle one effect's bypass state by correlated request.
    FetchEffectBypass { effect: u8, is_bypassed: bool },
}

/// One active connection: the identity found by the handshake and the
/// state of the last successful poll.
#[derive(Debug)]
pub struct ConnectedDevice {
    pub device: FractalDevice,
    pub state: DeviceState,
}

impl ConnectedDevice {
    /// A freshly connected device with default-initialized state.
    pub fn new(device: FractalDevice) -> (r: Self)
        ensures
            r.device == device,
            r.state@.preset_number == 0,
            r.state@.scene_number == 0,
            r.state@.preset_name.len() == 0,
            r.state@.scene_name.len() == 0,
    {
        ConnectedDevice { device, state: DeviceState::default() }
    }

    /// The state one successful poll reports.
    pub open spec fn spec_polled_state(preset: &PresetAndName, scene: &SceneWithName)
        -> DeviceStateView {
        DeviceStateView {
            preset_number: preset.number as u32,
            preset_name: preset.name@,
            scene_number: scene.number,
            scene_name: scene.name@,
        }
    }

    /// Replaces the stored state with the polled one and says whether it
    /// differed: the one place a state change is detected.
    pub fn update_state(&mut self, preset: &PresetAndName, scene: &SceneWithName) -> (changed:
        bool)
        ensures
            final(self).device == old(self).device,
            final(self).state@ == Self::spec_polled_state(preset, scene),
            changed == (Self::spec_polled_state(preset, scene) != old(self).state@),
    {
        let device_state = DeviceState {
            preset_number: preset.number as u32,
            preset_name: preset.name.clone(),
            scene_number: scene.number,
            scene_name: scene.name.clone(),
        };
        let changed = !(device_state == self.state);
        self.state = device_state;
        changed
    }

    /// Resolves one correlated exchange against the messages received
    /// before its deadline; what the actor's queries wait on.
    pub fn send_and_wait_for(
        &self,
        received: &Vec<FractalAudioMessages>,
        filter: &ResponseFilter,
        source_closed: bool,
    ) -> (r: FractalResult<FilterMatch>)
        ensures
            (r is Ok) == (exists|i: int|
                0 <= i < received@.len() && crate::correlator::spec_filter_matches(
                    *filter,
                    #[trigger] received@[i]@,
                )),
            r matches Ok(x) ==> exists|i: int|
                {
                    &&& 0 <= i < received@.len()
                    &&& crate::correlator::spec_filter_matches(*filter, #[trigger] received@[i]@)
                    &&& forall|j: int|
                        0 <= j < i ==> !crate::correlator::spec_filter_matches(
                            *filter,
                            received@[j]@,
                        )
                    &&& x@ == crate::correlator::spec_filter_value(*filter, received@[i]@)
                },
            r matches Err(e) ==> e == (if source_closed {
                FractalCoreError::Unknown
            } else {
                FractalCoreError::Timeout
            }),
    {
        filter_first(received, filter, source_closed)
    }
}

/// The courtesy frame released on disconnect: the release-controller
/// function with an empty payload, checksummed.
pub open spec fn spec_courtesy_disconnect(model: FractalModel) -> Seq<u8> {
    let prefix = seq![
        0xF0u8,
        0x00u8,
        0x01u8,
        0x74u8,
        crate::model::spec_model_code(model),
        0x42u8,
    ];
    prefix + seq![crate::checksum::spec_checksum(prefix), 0xF7u8]
}

/// The scene-select frame a set-scene command writes: the scene get/set
/// function carrying the scene number, checksummed.
pub open spec fn spec_scene_select(model: FractalModel, scene: u8) -> Seq<u8> {
    let prefix = seq![
        0xF0u8,
        0x00u8,
        0x01u8,
        0x74u8,
        crate::model::spec_model_code(model),
        0x0Cu8,
        (scene % 0x80) as u8,
    ];
    prefix + seq![crate::checksum::spec_checksum(prefix), 0xF7u8]
}

/// How the failure counter moves on one failed poll.
pub open spec fn spec_fail_count_step(c: u8) -> u8 {
    if c < 255 {
        (c + 1) as u8
    } else {
        255u8
    }
}

/// The failure counter after a run of consecutive failed polls starting
/// from zero.
pub open spec fn spec_failures_after(k: nat) -> u8
    decreases k,
{
    if k == 0 {
        0u8
    } else {
        spec_fail_count_step(spec_failures_after((k - 1) as nat))
    }
}

/// Whether the `k`-th consecutive failed poll asks for a disconnect.
pub open spec fn spec_fail_emits(k: nat) -> bool {
    spec_failures_after(k) >= MAX_POLL_FAILURES
}

proof fn lemma_failures_count(k: nat)
    requires
        k <= 255,
    ensures
        spec_failures_after(k) == k,
    decreases k,
{
    if k > 0 {
        lemma_failures_count((k - 1) as nat);
    }
}

/// The poll-failure threshold law: a run of consecutive poll failures
/// short of the bound asks for no disconnect, and the run reaching the
/// bound asks for exactly one.
pub proof fn lemma_poll_failure_threshold()
    ensures
        forall|k: nat| 1 <= k < MAX_POLL_FAILURES ==> !#[trigger] spec_fail_emits(k),
        spec_fail_emits(MAX_POLL_FAILURES as nat),
        forall|k: nat| 1 <= k < MAX_POLL_FAILURES ==> #[trigger] spec_failures_after(k) == k,
{
    assert forall|k: nat| 1 <= k < MAX_POLL_FAILURES implies !#[trigger] spec_fail_emits(k) by {
        lemma_failures_count(k);
    }
    assert forall|k: nat| 1 <= k < MAX_POLL_FAILURES implies #[trigger] spec_failures_after(k)
        == k by {
        lemma_failures_count(k);
    }
    lemma_failures_count(MAX_POLL_FAILURES as nat);
}

/// What one successful poll does to the actor: the counter resets, the
/// polled state replaces the stored one, and a change event goes out
/// exactly when the state differed.
pub open spec fn spec_poll_success_rel(
    pre: UiBackend,
    post: UiBackend,
    cand: DeviceStateView,
    emitted: bool,
) -> bool {
    match pre.device {
        None => post.device is None && post.poll_failures == pre.poll_failures && !emitted,
        Some(d) => {
            &&& post.poll_failures == 0
            &&& post.device matches Some(d2) && d2.device == d.device && d2.state@ == cand
            &&& emitted == (cand != d.state@)
        },
    }
}

/// The state-change suppression law: of two consecutive successful
/// polls reporting the same state, only the first can emit a change
/// event, and it does so exactly when the state was news.
pub proof fn lemma_state_change_suppression(
    b0: UiBackend,
    b1: UiBackend,
    b2: UiBackend,
    cand: DeviceStateView,
    e1: bool,
    e2: bool,
)
    requires
        b0.device is Some,
        spec_poll_success_rel(b0, b1, cand, e1),
        spec_poll_success_rel(b1, b2, cand, e2),
    ensures
        !e2,
        e1 == (cand != b0.device.unwrap().state@),
{
}

/// The session actor's own state: at most one connected device and the
/// consecutive-poll-failure counter.
pub struct UiBackend {
    pub device: Option<ConnectedDevice>,
    pub poll_failures: u8,
}

impl UiBackend {
    /// A fresh actor: disconnected, with a clean failure counter.
    pub fn new() -> (r: Self)
        ensures
            r.device is None,
            r.poll_failures == 0,
    {
        UiBackend { device: None, poll_failures: 0 }
    }

    /// The state snapshot event for the user interface, when connected.
    pub fn send_device_state(&self) -> (r: Option<UiPayload>)
        ensures
            (r is Some) == (self.device is Some),
            self.device matches Some(d) ==> r matches Some(p) && p matches UiPayload::DeviceState(
                crate::payload::DeviceState::PresetAndScene(ps),
            ) && ps.preset == (d.state@.preset_number % 0x10000) as u16 && ps.preset_name@
                == d.state@.preset_name && ps.scene == d.state@.scene_number && ps.scene_name@
                == d.state@.scene_name,
    {
        match &self.device {
            Some(d) => Some(
                UiPayload::DeviceState(
                    crate::payload::DeviceState::PresetAndScene(
                        PresetAndScene {
                            preset: (d.state.preset_number % 0x10000) as u16,
                            preset_name: d.state.preset_name.clone(),
                            scene: d.state.scene_number,
                            scene_name: d.state.scene_name.clone(),
                        },
                    ),
                ),
            ),
            None => None,
        }
    }

    /// Applies one successful poll: resets the failure counter, stores
    /// the polled state, and exactly when it differed emits the state
    /// snapshot and the follow-up refresh requests.
    pub fn status_poll_success(&mut self, preset: &PresetAndName, scene: &SceneWithName) -> (acts:
        Vec<BackendAction>)
        ensures
            spec_poll_success_rel(
                *old(self),
                *final(self),
                ConnectedDevice::spec_polled_state(preset, scene),
                acts@.len() > 0,
            ),
            old(self).device is None ==> acts@.len() == 0,
            acts@.len() > 0 ==> {
                &&& acts@.len() == 3
                &&& acts@[0] matches BackendAction::Send(UiPayload::DeviceState(
                    crate::payload::DeviceState::PresetAndScene(ps),
                )) && ps.preset == preset.number && ps.preset_name@ == preset.name@ && ps.scene
                    == scene.number && ps.scene_name@ == scene.name@
                &&& acts@[1] == BackendAction::Send(UiPayload::RequestScenes)
                &&& acts@[2] == BackendAction::Send(UiPayload::RequestEffectStatus)
            },
    {
        let mut acts: Vec<BackendAction> = Vec::new();
        match &mut self.device {
            Some(d) => {
                let changed = d.update_state(preset, scene);
                self.poll_failures = 0;
                if changed {
                    acts.push(
                        BackendAction::Send(
                            UiPayload::DeviceState(
                                crate::payload::DeviceState::PresetAndScene(
                                    PresetAndScene {
                                        preset: (preset.number as u32 % 0x10000) as u16,
                                        preset_name: preset.name.clone(),
                                        scene: scene.number,
                                        scene_name: scene.name.clone(),
                                    },
                                ),
                            ),
                        ),
                    );
                    acts.push(BackendAction::Send(UiPayload::RequestScenes));
                    acts.push(BackendAction::Send(UiPayload::RequestEffectStatus));
                }
            },
            None => {},
        }
        acts
    }

    /// Applies one failed poll: counts it, and when the run of failures
    /// reaches the bound, reports the causing error and asks for the
    /// disconnect that ends the session, so the user interface can tell
    /// this ending apart from a disconnect the user asked for.
    pub fn status_poll_failure(&mut self, cause: FractalCoreError) -> (acts: Vec<BackendAction>)
        ensures
            old(self).device is None ==> *final(self) == *old(self) && acts@.len() == 0,
            old(self).device is Some ==> {
                &&& final(self).device == old(self).device
                &&& final(self).poll_failures == spec_fail_count_step(old(self).poll_failures)
                &&& (final(self).poll_failures >= MAX_POLL_FAILURES) == (acts@.len() == 2)
                &&& (acts@.len() == 0 || acts@.len() == 2)
                &&& acts@.len() == 2 ==> acts@[0] == BackendAction::Send(
                    UiPayload::Connection(PayloadConnection::PollFailuresExhausted(cause)),
                ) && acts@[1] == BackendAction::Send(
                    UiPayload::Connection(PayloadConnection::Disconnect),
                )
            },
    {
        let mut acts: Vec<BackendAction> = Vec::new();
        match &self.device {
            Some(_) => {
                if self.poll_failures < 255 {
                    self.poll_failures = self.poll_failures + 1;
                }
                if self.poll_failures >= MAX_POLL_FAILURES {
                    acts.push(
                        BackendAction::Send(
                            UiPayload::Connection(
                                PayloadConnection::PollFailuresExhausted(cause),
                            ),
                        ),
                    );
                    acts.push(
                        BackendAction::Send(UiPayload::Connection(PayloadConnection::Disconnect)),
                    );
                }
            },
            None => {},
        }
        acts
    }

    /// Applies one connection command or event.
    pub fn connection(&mut self, msg: &PayloadConnection) -> (acts: Vec<BackendAction>)
        ensures
            msg is ListEndpoints ==> *final(self) == *old(self) && acts@ =~= seq![
                BackendAction::DetectEndpoints,
            ],
            msg matches PayloadConnection::ConnectToEndpoint(e) ==> *final(self) == *old(self)
                && acts@.len() == 1 && (acts@[0] matches BackendAction::Connect(e2)
                && e2.transport_endpoint.id@ == e.transport_endpoint.id@),
            msg is TryToAutoConnect ==> *final(self) == *old(self) && acts@ =~= seq![
                BackendAction::AutoConnect,
            ],
            msg is Disconnect ==> {
                &&& final(self).device is None
                &&& final(self).poll_failures == old(self).poll_failures
                &&& (old(self).device is Some ==> acts@.len() == 3 && (acts@[0]
                    matches BackendAction::WriteBytes(w) && w@ == spec_courtesy_disconnect(
                    old(self).device.unwrap().device.model,
                )) && acts@[1] == BackendAction::Send(
                    UiPayload::Connection(PayloadConnection::Disconnected),
                ) && acts@[2] == BackendAction::StopPoller)
                &&& (old(self).device is None ==> acts@ =~= seq![
                    BackendAction::Send(UiPayload::Connection(PayloadConnection::Disconnected)),
                    BackendAction::StopPoller,
                ])
            },
            !(msg is ListEndpoints || msg is ConnectToEndpoint || msg is TryToAutoConnect
                || msg is Disconnect) ==> *final(self) == *old(self) && acts@.len() == 0,
    {
        let mut acts: Vec<BackendAction> = Vec::new();
        match msg {
            PayloadConnection::ListEndpoints => {
                acts.push(BackendAction::DetectEndpoints);
                proof {
                    assert(acts@ =~= seq![BackendAction::DetectEndpoints]);
                }
            },
            PayloadConnection::ConnectToEndpoint(e) => {
                acts.push(
                    BackendAction::Connect(
                        Endpoint {
                            transport_id: e.transport_id.clone(),
                            transport_endpoint: crate::transport::TransportEndpoint {
                                id: e.transport_endpoint.id.clone(),
                                name: e.transport_endpoint.name.clone(),
                            },
                        },
                    ),
                );
            },
            PayloadConnection::TryToAutoConnect => {
                acts.push(BackendAction::AutoConnect);
                proof {
                    assert(acts@ =~= seq![BackendAction::AutoConnect]);
                }
            },
            PayloadConnection::Disconnect => {
                let had = match self.device.take() {
                    Some(d) => {
                        let mut courtesy =
                            crate::messages::MultipurposeResponseHelper::disconnect_from_controller(
                            d.device.model,
                        );
                        let bytes = courtesy.pack_bytes();
                        proof {
                            assert(courtesy.spec_prefix() =~= seq![
                                0xF0u8,
                                0x00u8,
                                0x01u8,
                                0x74u8,
                                crate::model::spec_model_code(d.device.model),
                                0x42u8,
                            ]);
                            assert(bytes@ =~= spec_courtesy_disconnect(d.device.model));
                        }
                        acts.push(BackendAction::WriteBytes(bytes));
                        true
                    },
                    None => false,
                };
                acts.push(
                    BackendAction::Send(UiPayload::Connection(PayloadConnection::Disconnected)),
                );
                acts.push(BackendAction::StopPoller);
                proof {
                    if !had {
                        assert(acts@ =~= seq![
                            BackendAction::Send(
                                UiPayload::Connection(PayloadConnection::Disconnected),
                            ),
                            BackendAction::StopPoller,
                        ]);
                    }
                }
            },
            _ => {},
        }
        acts
    }

    /// Installs a freshly connected device and emits the connected
    /// event, the first state snapshot, and the initial refreshes.
    pub fn on_connect(&mut self, device: ConnectedDevice) -> (acts: Vec<BackendAction>)
        ensures
            final(self).device matches Some(d) && d.device == device.device && d.state@
                == device.state@,
            final(self).poll_failures == old(self).poll_failures,
            acts@.len() == 5,
            acts@[0] matches BackendAction::Send(UiPayload::Connection(
                PayloadConnection::Connected { device: dev },
            )) && dev == device.device,
            acts@[1] matches BackendAction::Send(UiPayload::DeviceState(
                crate::payload::DeviceState::PresetAndScene(ps),
            )) && ps.preset == (device.state@.preset_number % 0x10000) as u16 && ps.scene
                == device.state@.scene_number,
            acts@[2] == BackendAction::StartPoller,
            acts@[3] == BackendAction::Send(UiPayload::RequestScenes),
            acts@[4] == BackendAction::Send(UiPayload::RequestEffectStatus),
    {
        let info = device.device;
        self.device = Some(device);
        let mut acts: Vec<BackendAction> = Vec::new();
        acts.push(
            BackendAction::Send(UiPayload::Connection(PayloadConnection::Connected { device: info })),
        );
        match self.send_device_state() {
            Some(p) => {
                acts.push(BackendAction::Send(p));
            },
            None => {
                proof {
                    assert(false);
                }
            },
        }
        acts.push(BackendAction::StartPoller);
        acts.push(BackendAction::Send(UiPayload::RequestScenes));
        acts.push(BackendAction::Send(UiPayload::RequestEffectStatus));
        acts
    }

    /// Reports a failed connect attempt.
    pub fn connect_failed(&self, e: FractalCoreError) -> (acts: Vec<BackendAction>)
        ensures
            acts@.len() == 1,
            acts@[0] matches BackendAction::Send(UiPayload::Connection(
                PayloadConnection::ConnectionFailed(_),
            )),
    {
        let mut acts: Vec<BackendAction> = Vec::new();
        acts.push(BackendAction::Send(UiPayload::Connection(PayloadConnection::ConnectionFailed(e))));
        acts
    }

    /// Applies one inbound command, deciding the writes, events and
    /// fetches it takes; commands that need a connection fail without
    /// one.
    pub fn handle_action(&mut self, msg: &UiPayload) -> (r: Result<
        Vec<BackendAction>,
        FractalCoreError,
    >)
        ensures
            msg matches UiPayload::DeviceState(crate::payload::DeviceState::SetPreset { preset })
                ==> {
                &&& *final(self) == *old(self)
                &&& r matches Ok(acts)
                &&& (old(self).device is Some ==> acts@.len() == 3 && (acts@[0]
                    matches BackendAction::WriteBytes(w1) && w1@ =~= seq![
                    0xB0u8,
                    0x00u8,
                    ((preset / 128) % 256) as u8,
                ]) && (acts@[1] matches BackendAction::WriteBytes(w2) && w2@ =~= seq![
                    0xC0u8,
                    (preset % 128) as u8,
                ]) && acts@[2] == BackendAction::Poll)
                &&& (old(self).device is None ==> acts@ =~= seq![BackendAction::Poll])
            },
            msg matches UiPayload::DeviceState(crate::payload::DeviceState::SetScene { scene })
                ==> {
                &&& *final(self) == *old(self)
                &&& r matches Ok(acts)
                &&& (old(self).device is Some ==> acts@.len() == 2 && (acts@[0]
                    matches BackendAction::WriteBytes(w) && w@ == spec_scene_select(
                    old(self).device.unwrap().device.model,
                    *scene,
                )) && acts@[1] == BackendAction::Poll)
                &&& (old(self).device is None ==> acts@ =~= seq![BackendAction::Poll])
            },
            msg matches UiPayload::DeviceState(crate::payload::DeviceState::DeltaPreset { delta })
                ==> {
                &&& *final(self) == *old(self)
                &&& r matches Ok(acts)
                &&& (old(self).device matches Some(d) ==> acts@.len() == 1 && (acts@[0]
                    matches BackendAction::Send(UiPayload::DeviceState(
                    crate::payload::DeviceState::SetPreset { preset },
                )) && preset as int == spec_wrap_delta(
                    d.state@.preset_number as int,
                    delta as int,
                    511,
                )))
                &&& (old(self).device is None ==> acts@.len() == 0)
            },
            msg matches UiPayload::DeviceState(crate::payload::DeviceState::DeltaScene { delta })
                ==> {
                &&& *final(self) == *old(self)
                &&& r matches Ok(acts)
                &&& (old(self).device matches Some(d) ==> acts@.len() == 1 && (acts@[0]
                    matches BackendAction::Send(UiPayload::DeviceState(
                    crate::payload::DeviceState::SetScene { scene },
                )) && scene as int == spec_wrap_delta(
                    d.state@.scene_number as int,
                    delta as int,
                    7,
                )))
                &&& (old(self).device is None ==> acts@.len() == 0)
            },
            msg is RequestScenes ==> {
                &&& *final(self) == *old(self)
                &&& (old(self).device matches Some(d) ==> (if d.device.model == FractalModel::III
                    || d.device.model == FractalModel::FM3 {
                    (r matches Ok(acts) && acts@ =~= seq![
                        BackendAction::FetchScenes { count: 8u8 },
                    ])
                } else {
                    (r matches Err(e) && e is MissingValue)
                }))
                &&& (old(self).device is None ==> (r matches Err(e) && e is NotConnected))
            },
            msg is RequestAllPresets ==> {
                &&& *final(self) == *old(self)
                &&& (old(self).device matches Some(d) ==> (if d.device.model == FractalModel::III
                    || d.device.model == FractalModel::FM3 {
                    (r matches Ok(acts) && acts@ =~= seq![
                        BackendAction::FetchPresets { count: 512u16 },
                    ])
                } else {
                    (r matches Err(e) && e is MissingValue)
                }))
                &&& (old(self).device is None ==> (r matches Err(e) && e is NotConnected))
            },
            msg is RequestCurrentBlocks ==> *final(self) == *old(self) && (old(self).device is Some
                ==> (r matches Ok(acts) && acts@ =~= seq![BackendAction::FetchBlocks])) && (old(
                self,
            ).device is None ==> (r matches Err(e) && e is NotConnected)),
            msg is RequestEffectStatus ==> *final(self) == *old(self) && (old(self).device is Some
                ==> (r matches Ok(acts) && acts@ =~= seq![BackendAction::FetchEffectStatus])) && (
            old(self).device is None ==> r is Err),
            msg matches UiPayload::SetEffectBypass { effect, is_bypassed } ==> *final(self)
                == *old(self) && (old(self).device is Some ==> (r matches Ok(acts) && acts@ =~= seq![
                BackendAction::FetchEffectBypass { effect: *effect, is_bypassed: *is_bypassed },
            ])) && (old(self).device is None ==> (r matches Err(e) && e is NotConnected)),
    {
        match msg {
            UiPayload::Connection(c) => {
                let acts = self.connection(c);
                Ok(acts)
            },
            UiPayload::DeviceState(crate::payload::DeviceState::SetPreset { preset }) => {
                let mut acts: Vec<BackendAction> = Vec::new();
                if self.device.is_some() {
                    let bank: u8 = ((*preset / 128) % 256) as u8;
                    let patch: u8 = (*preset % 128) as u8;
                    let mut w1: Vec<u8> = Vec::new();
                    w1.push(0xB0);
                    w1.push(0x00);
                    w1.push(bank);
                    let mut w2: Vec<u8> = Vec::new();
                    w2.push(0xC0);
                    w2.push(patch);
                    proof {
                        assert(w1@ =~= seq![0xB0u8, 0x00u8, (((*preset) / 128) % 256) as u8]);
                        assert(w2@ =~= seq![0xC0u8, ((*preset) % 128) as u8]);
                    }
                    acts.push(BackendAction::WriteBytes(w1));
                    acts.push(BackendAction::WriteBytes(w2));
                }
                acts.push(BackendAction::Poll);
                proof {
                    if old(self).device is None {
                        assert(acts@ =~= seq![BackendAction::Poll]);
                    }
                }
                Ok(acts)
            },
            UiPayload::DeviceState(crate::payload::DeviceState::SetScene { scene }) => {
                let mut acts: Vec<BackendAction> = Vec::new();
                match &self.device {
                    Some(d) => {
                        let mut m = SceneWithNameHelper::set_current_scene_number(
                            d.device.model,
                            *scene,
                        );
                        let bytes = m.pack_bytes();
                        proof {
                            assert(m.spec_prefix() =~= seq![
                                0xF0u8,
                                0x00u8,
                                0x01u8,
                                0x74u8,
                                crate::model::spec_model_code(d.device.model),
                                0x0Cu8,
                                ((*scene) % 0x80) as u8,
                            ]);
                            assert(bytes@ =~= spec_scene_select(d.device.model, *scene));
                        }
                        acts.push(BackendAction::WriteBytes(bytes));
                    },
                    None => {},
                }
                acts.push(BackendAction::Poll);
                proof {
                    if old(self).device is None {
                        assert(acts@ =~= seq![BackendAction::Poll]);
                    }
                }
                Ok(acts)
            },
            UiPayload::DeviceState(crate::payload::DeviceState::DeltaPreset { delta }) => {
                let mut acts: Vec<BackendAction> = Vec::new();
                match &self.device {
                    Some(d) => {
                        let new_preset = wrap_delta_u32(d.state.preset_number, *delta as i64, 511);
                        acts.push(
                            BackendAction::Send(
                                UiPayload::DeviceState(
                                    crate::payload::DeviceState::SetPreset { preset: new_preset },
                                ),
                            ),
                        );
                    },
                    None => {},
                }
                Ok(acts)
            },
            UiPayload::DeviceState(crate::payload::DeviceState::DeltaScene { delta }) => {
                let mut acts: Vec<BackendAction> = Vec::new();
                match &self.device {
                    Some(d) => {
                        let new_scene = wrap_delta_u32(d.state.scene_number as u32, *delta as i64, 7);
                        acts.push(
                            BackendAction::Send(
                                UiPayload::DeviceState(
                                    crate::payload::DeviceState::SetScene {
                                        scene: (new_scene % 256) as u8,
                                    },
                                ),
                            ),
                        );
                    },
                    None => {},
                }
                Ok(acts)
            },
            UiPayload::RequestAllPresets => {
                match &self.device {
                    Some(d) => {
                        match d.device.model.number_of_presets() {
                            Some(count) => {
                                let mut acts: Vec<BackendAction> = Vec::new();
                                acts.push(BackendAction::FetchPresets { count });
                                proof {
                                    assert(acts@ =~= seq![
                                        BackendAction::FetchPresets { count: 512u16 },
                                    ]);
                                }
                                Ok(acts)
                            },
                            None => Err(
                                FractalCoreError::MissingValue(
                                    String::from_str("Number of presets"),
                                ),
                            ),
                        }
                    },
                    None => Err(FractalCoreError::NotConnected),
                }
            },
            UiPayload::RequestScenes => {
                match &self.device {
                    Some(d) => {
                        match d.device.model.number_of_scenes() {
                            Some(count) => {
                                let mut acts: Vec<BackendAction> = Vec::new();
                                acts.push(BackendAction::FetchScenes { count });
                                proof {
                                    assert(acts@ =~= seq![
                                        BackendAction::FetchScenes { count: 8u8 },
                                    ]);
                                }
                                Ok(acts)
                            },
                            None => Err(
                                FractalCoreError::MissingValue(
                                    String::from_str("Number of scenes"),
                                ),
                            ),
                        }
                    },
                    None => Err(FractalCoreError::NotConnected),
                }
            },
            UiPayload::RequestCurrentBlocks => {
                match &self.device {
                    Some(_) => {
                        let mut acts: Vec<BackendAction> = Vec::new();
                        acts.push(BackendAction::FetchBlocks);
                        proof {
                            assert(acts@ =~= seq![BackendAction::FetchBlocks]);
                        }
                        Ok(acts)
                    },
                    None => Err(FractalCoreError::NotConnected),
                }
            },
            UiPayload::RequestEffectStatus => {
                match &self.device {
                    Some(_) => {
                        let mut acts: Vec<BackendAction> = Vec::new();
                        acts.push(BackendAction::FetchEffectStatus);
                        proof {
                            assert(acts@ =~= seq![BackendAction::FetchEffectStatus]);
                        }
                        Ok(acts)
                    },
                    None => Err(FractalCoreError::NotConnected),
                }
            },
            UiPayload::SetEffectBypass { effect, is_bypassed } => {
                match &self.device {
                    Some(_) => {
                        let mut acts: Vec<BackendAction> = Vec::new();
                        acts.push(
                            BackendAction::FetchEffectBypass {
                                effect: *effect,
                                is_bypassed: *is_bypassed,
                            },
                        );
                        proof {
                            assert(acts@ =~= seq![
                                BackendAction::FetchEffectBypass {
                                    effect: *effect,
                                    is_bypassed: *is_bypassed,
                                },
                            ]);
                        }
                        Ok(acts)
                    },
                    None => Err(FractalCoreError::NotConnected),
                }
            },
            _ => Ok(Vec::new()),
        }
    }
}

/// The value a relative step lands on, wrapping past either end of the
/// inclusive range `0..=max`.
pub open spec fn spec_wrap_delta(cur: int, delta: int, max: int) -> int {
    let p = cur + delta;
    if p < 0 {
        max
    } else if p > max {
        0
    } else {
        p
    }
}

/// Steps a value by a delta with wraparound past either end of
/// `0..=max`.
fn wrap_delta_u32(cur: u32, delta: i64, max: u16) -> (r: u16)
    requires
        -0x10000 <= delta <= 0x10000,
    ensures
        r as int == spec_wrap_delta(cur as int, delta as int, max as int),
{
    let p: i64 = cur as i64 + delta;
    if p < 0 {
        max
    } else if p > max as i64 {
        0
    } else {
        p as u16
    }
}

/// Builds the device identity the handshake found.
pub fn make_device(model: FractalModel, firmware: FirmwareVersion) -> (r: FractalDevice)
    ensures
        r.model == model,
        r.firmware == firmware,
{
    FractalDevice { model, firmware }
}

} // verus!
