use axess::backend::{make_device, BackendAction, ConnectedDevice, UiBackend, MAX_POLL_FAILURES};
use axess::buffer::MessagesBuffer;
use axess::correlator::{filter_first, FilterMatch, ResponseFilter};
use axess::error::FractalCoreError;
use axess::messages::{
    FirmwareVersion, FractalAudioMessages, MultipurposeResponseHelper, PresetAndName, Scene,
    SceneWithName,
};
use axess::model::FractalModel;
use axess::payload::{DeviceState as DeviceStateCommand, PayloadConnection, UiPayload};

fn connected_backend() -> UiBackend {
    let mut backend = UiBackend::new();
    let device = make_device(FractalModel::III, FirmwareVersion { major: 13, minor: 3 });
    backend.on_connect(ConnectedDevice::new(device));
    backend
}

fn polled(preset: u16, name: &str, scene: u8, scene_name: &str) -> (PresetAndName, SceneWithName) {
    (
        PresetAndName { number: preset, name: name.to_string() },
        SceneWithName { number: scene, name: scene_name.to_string() },
    )
}

#[test]
fn correlator_returns_first_match() {
    let received = vec![
        FractalAudioMessages::Scene(Scene { number: 3 }),
        FractalAudioMessages::FirmwareVersion(FirmwareVersion { major: 1, minor: 5 }),
        FractalAudioMessages::FirmwareVersion(FirmwareVersion { major: 9, minor: 9 }),
    ];
    match filter_first(&received, &ResponseFilter::Firmware, false) {
        Ok(FilterMatch::Firmware(fw)) => {
            assert_eq!(fw.major, 1);
            assert_eq!(fw.minor, 5);
        }
        other => panic!("expected the first firmware message, got {:?}", other),
    }
}

#[test]
fn correlator_timeout_when_nothing_matches() {
    // A stream of messages none of which the filter accepts resolves as
    // a timeout, never a fabricated value.
    let received = vec![
        FractalAudioMessages::Scene(Scene { number: 3 }),
        FractalAudioMessages::Preset(axess::messages::Preset { number: 1 }),
    ];
    match filter_first(&received, &ResponseFilter::Firmware, false) {
        Err(FractalCoreError::Timeout) => {}
        other => panic!("expected a timeout, got {:?}", other),
    }

    // An empty stream times out too.
    let nothing: Vec<FractalAudioMessages> = Vec::new();
    assert!(matches!(
        filter_first(&nothing, &ResponseFilter::Discovery, false),
        Err(FractalCoreError::Timeout)
    ));

    // A closed source is told apart from a timeout.
    assert!(matches!(
        filter_first(&nothing, &ResponseFilter::Discovery, true),
        Err(FractalCoreError::Unknown)
    ));
}

#[test]
fn discovery_filter_ignores_other_responses() {
    let received = vec![FractalAudioMessages::MultipurposeResponse(
        axess::messages::MultipurposeResponse {
            model: FractalModel::III,
            function_id: 0x0A,
            response_code: 0,
        },
    )];
    assert!(filter_first(&received, &ResponseFilter::Discovery, false).is_err());
}

#[test]
fn poll_failure_threshold() {
    let mut backend = connected_backend();

    for _ in 0..MAX_POLL_FAILURES - 1 {
        let acts = backend.status_poll_failure(FractalCoreError::Timeout);
        assert!(acts.is_empty());
        assert!(backend.device.is_some());
    }

    // The last tolerated failure reports the cause and asks for exactly
    // one disconnect, so the UI can tell this from a user disconnect.
    let acts = backend.status_poll_failure(FractalCoreError::Timeout);
    assert_eq!(acts.len(), 2);
    assert!(matches!(
        acts[0],
        BackendAction::Send(UiPayload::Connection(PayloadConnection::PollFailuresExhausted(
            FractalCoreError::Timeout
        )))
    ));
    assert!(matches!(
        acts[1],
        BackendAction::Send(UiPayload::Connection(PayloadConnection::Disconnect))
    ));

    // Handling that disconnect emits exactly one disconnected event.
    let acts = backend.connection(&PayloadConnection::Disconnect);
    let disconnected = acts
        .iter()
        .filter(|a| {
            matches!(
                a,
                BackendAction::Send(UiPayload::Connection(PayloadConnection::Disconnected))
            )
        })
        .count();
    assert_eq!(disconnected, 1);
    assert!(backend.device.is_none());
}

#[test]
fn successful_poll_resets_failure_counter() {
    let mut backend = connected_backend();
    backend.status_poll_failure(FractalCoreError::Timeout);
    backend.status_poll_failure(FractalCoreError::IoError);
    assert_eq!(backend.poll_failures, 2);

    let (preset, scene) = polled(5, "Lead", 1, "Solo");
    backend.status_poll_success(&preset, &scene);
    assert_eq!(backend.poll_failures, 0);
}

#[test]
fn state_change_suppression() {
    let mut backend = connected_backend();
    let (preset, scene) = polled(12, "Rhythm", 2, "Crunch");

    // The initial population differs from the default state and emits
    // one snapshot plus the follow-up refreshes.
    let first = backend.status_poll_success(&preset, &scene);
    assert_eq!(first.len(), 3);
    assert!(matches!(
        first[0],
        BackendAction::Send(UiPayload::DeviceState(DeviceStateCommand::PresetAndScene(ref ps)))
            if ps.preset == 12 && ps.preset_name == "Rhythm" && ps.scene == 2
    ));

    // An identical second poll emits nothing.
    let second = backend.status_poll_success(&preset, &scene);
    assert!(second.is_empty());

    // A genuinely new state emits again.
    let (preset2, scene2) = polled(13, "Rhythm", 2, "Crunch");
    let third = backend.status_poll_success(&preset2, &scene2);
    assert_eq!(third.len(), 3);
}

#[test]
fn end_to_end_discovery_scenario() {
    // The fixed discovery frame goes out first.
    let request = MultipurposeResponseHelper::get_discovery_request();
    assert_eq!(request, vec![0xF0, 0x00, 0x01, 0x74, 0x7F, 0x00, 0x00, 0x7A, 0xF7]);

    // The transport echoes a matching multipurpose response for model
    // code 0x10, chunked arbitrarily.
    let reply = [0xF0u8, 0x00, 0x01, 0x74, 0x10, 0x64, 0x00, 0x00, 0x71, 0xF7];
    let mut buffer = MessagesBuffer::new();
    let mut received = Vec::new();
    received.extend(buffer.parse(&reply[..4]));
    received.extend(buffer.parse(&reply[4..]));

    let model = match filter_first(&received, &ResponseFilter::Discovery, false) {
        Ok(FilterMatch::Model(m)) => m,
        other => panic!("discovery did not resolve: {:?}", other),
    };
    assert_eq!(model, FractalModel::III);

    // The firmware query resolves next.
    let fw_reply = [0xF0, 0x0, 0x1, 0x74, 0x10, 0x8, 0xD, 0x3, 0x10, 0x1, 0x8, 0x0, 0x0, 0xA, 0xF7];
    let received = buffer.parse(&fw_reply);
    let firmware = match filter_first(&received, &ResponseFilter::Firmware, false) {
        Ok(FilterMatch::Firmware(fw)) => fw,
        other => panic!("firmware query did not resolve: {:?}", other),
    };

    // The handshake outcome connects the session.
    let mut backend = UiBackend::new();
    let device = make_device(model, firmware);
    let acts = backend.on_connect(ConnectedDevice::new(device));
    match &acts[0] {
        BackendAction::Send(UiPayload::Connection(PayloadConnection::Connected { device })) => {
            assert_eq!(device.model, FractalModel::III);
            assert_eq!(device.firmware.major, 13);
        }
        other => panic!("expected the connected event, got {:?}", other),
    }
    assert!(matches!(acts[2], BackendAction::StartPoller));
}

#[test]
fn delta_commands_wrap_around() {
    let mut backend = connected_backend();

    // From the default preset zero, one step down wraps to the top.
    let acts = backend
        .handle_action(&UiPayload::DeviceState(DeviceStateCommand::DeltaPreset { delta: -1 }))
        .unwrap();
    assert!(matches!(
        acts[0],
        BackendAction::Send(UiPayload::DeviceState(DeviceStateCommand::SetPreset { preset: 511 }))
    ));

    let acts = backend
        .handle_action(&UiPayload::DeviceState(DeviceStateCommand::DeltaScene { delta: -1 }))
        .unwrap();
    assert!(matches!(
        acts[0],
        BackendAction::Send(UiPayload::DeviceState(DeviceStateCommand::SetScene { scene: 7 }))
    ));

    // From the top preset, one step up wraps to zero.
    let (preset, scene) = polled(511, "Top", 7, "Last");
    backend.status_poll_success(&preset, &scene);
    let acts = backend
        .handle_action(&UiPayload::DeviceState(DeviceStateCommand::DeltaPreset { delta: 1 }))
        .unwrap();
    assert!(matches!(
        acts[0],
        BackendAction::Send(UiPayload::DeviceState(DeviceStateCommand::SetPreset { preset: 0 }))
    ));
    let acts = backend
        .handle_action(&UiPayload::DeviceState(DeviceStateCommand::DeltaScene { delta: 1 }))
        .unwrap();
    assert!(matches!(
        acts[0],
        BackendAction::Send(UiPayload::DeviceState(DeviceStateCommand::SetScene { scene: 0 }))
    ));
}

#[test]
fn set_preset_splits_bank_and_patch() {
    let mut backend = connected_backend();
    let acts = backend
        .handle_action(&UiPayload::DeviceState(DeviceStateCommand::SetPreset { preset: 300 }))
        .unwrap();
    assert_eq!(acts.len(), 3);
    match &acts[0] {
        BackendAction::WriteBytes(w) => assert_eq!(w.as_slice(), &[0xB0, 0x00, 2]),
        other => panic!("expected a bank select write, got {:?}", other),
    }
    match &acts[1] {
        BackendAction::WriteBytes(w) => assert_eq!(w.as_slice(), &[0xC0, 44]),
        other => panic!("expected a program change write, got {:?}", other),
    }
    assert!(matches!(acts[2], BackendAction::Poll));
}

#[test]
fn commands_without_a_connection_fail() {
    let mut backend = UiBackend::new();
    assert!(matches!(
        backend.handle_action(&UiPayload::RequestScenes),
        Err(FractalCoreError::NotConnected)
    ));
    assert!(matches!(
        backend.handle_action(&UiPayload::RequestAllPresets),
        Err(FractalCoreError::NotConnected)
    ));
    assert!(matches!(
        backend.handle_action(&UiPayload::RequestEffectStatus),
        Err(FractalCoreError::NotConnected)
    ));
}

#[test]
fn fetches_when_connected() {
    let mut backend = connected_backend();
    let acts = backend.handle_action(&UiPayload::RequestScenes).unwrap();
    assert!(matches!(acts[0], BackendAction::FetchScenes { count: 8 }));
    let acts = backend.handle_action(&UiPayload::RequestAllPresets).unwrap();
    assert!(matches!(acts[0], BackendAction::FetchPresets { count: 512 }));
    let acts = backend
        .handle_action(&UiPayload::SetEffectBypass { effect: 0x3A, is_bypassed: true })
        .unwrap();
    assert!(matches!(
        acts[0],
        BackendAction::FetchEffectBypass { effect: 0x3A, is_bypassed: true }
    ));
}

#[test]
fn disconnect_sends_courtesy_message() {
    let mut backend = connected_backend();
    let acts = backend.connection(&PayloadConnection::Disconnect);
    assert_eq!(acts.len(), 3);
    match &acts[0] {
        BackendAction::WriteBytes(w) => {
            // The courtesy frame carries the release-controller function.
            assert_eq!(w[0], 0xF0);
            assert_eq!(w[5], 0x42);
            assert_eq!(w[w.len() - 1], 0xF7);
        }
        other => panic!("expected the courtesy write, got {:?}", other),
    }
}
