use axess::config::AxessConfiguration;
use axess::keyboard::{
    get_main_keyboard_shortcuts, KeyboardCombination, KeyboardShortcutKey, Keys, KeyboardState,
    ShortcutCommand, UiEvent,
};
use axess::message::{parse_message, validate_and_decode_message, FractalMessage};
use axess::model::FractalModel;
use axess::payload::{DeviceState, UiPayload};
use axess::status_bar::{AxessStatusBar, AxessStatusBarMessageKind};
use axess::transport::MidiPorts;

#[test]
fn keyboard_modifier_handling() {
    let mut state = KeyboardState::default();

    // A plain key press.
    assert_eq!(
        state.handle_event(&UiEvent::KeyDown(13, 0)),
        Some(KeyboardCombination::Key(13))
    );

    // Holding control turns presses into control combinations.
    assert_eq!(state.handle_event(&UiEvent::KeyDown(0x11, 0)), None);
    assert_eq!(
        state.handle_event(&UiEvent::KeyDown(33, 0)),
        Some(KeyboardCombination::CtrlKey(33))
    );

    // Releasing control restores plain combinations.
    assert_eq!(state.handle_event(&UiEvent::KeyUp(0x11, 0)), None);
    assert_eq!(state.handle_event(&UiEvent::KeyUp(33, 0)), None);
    assert_eq!(
        state.handle_event(&UiEvent::KeyDown(33, 0)),
        Some(KeyboardCombination::Key(33))
    );
}

#[test]
fn shortcut_tables_follow_preferences() {
    let none = AxessConfiguration {
        keyboard_shortcuts_axe_edit: false,
        keyboard_shortcuts_presets_and_scenes_function_keys: false,
    };
    let table = get_main_keyboard_shortcuts(&none);
    assert_eq!(table.len(), 1);
    assert_eq!(table[0].key, KeyboardShortcutKey::Key(Keys::Enter));

    let default_config = AxessConfiguration::default();
    assert!(default_config.keyboard_shortcuts_axe_edit);
    let table = get_main_keyboard_shortcuts(&default_config);
    assert_eq!(table.len(), 11);
    assert_eq!(table[1].key, KeyboardShortcutKey::CtrlKey(Keys::PageUp));
    assert_eq!(table[3].key, KeyboardShortcutKey::CtrlKey(Keys::Number1));
    assert!(matches!(
        table[3].command,
        ShortcutCommand::UiPayload(UiPayload::DeviceState(DeviceState::SetScene { scene: 0 }))
    ));
    assert_eq!(table[3].command_description, "Select Scene 1");

    let both = AxessConfiguration {
        keyboard_shortcuts_axe_edit: true,
        keyboard_shortcuts_presets_and_scenes_function_keys: true,
    };
    let table = get_main_keyboard_shortcuts(&both);
    assert_eq!(table.len(), 21);
    assert_eq!(table[11].key, KeyboardShortcutKey::Key(Keys::Fn1));
    assert_eq!(table[19].key, KeyboardShortcutKey::Key(Keys::Fn9));
    assert!(matches!(
        table[19].command,
        ShortcutCommand::UiPayload(UiPayload::DeviceState(DeviceState::DeltaPreset { delta: -1 }))
    ));
    assert_eq!(table[20].key, KeyboardShortcutKey::Key(Keys::Fn10));
}

#[test]
fn status_bar_one_slot_per_kind() {
    let mut bar = AxessStatusBar::new();
    bar.push_message(AxessStatusBarMessageKind::Default, "ready".to_string());
    bar.push_message(AxessStatusBarMessageKind::Progress, "1 of 10".to_string());
    assert_eq!(bar.messages.len(), 2);

    // Pushing an already-present kind replaces its message in place.
    bar.push_message(AxessStatusBarMessageKind::Progress, "2 of 10".to_string());
    assert_eq!(bar.messages.len(), 2);
    assert_eq!(bar.messages[1].1, "2 of 10");

    bar.pop_message(AxessStatusBarMessageKind::Progress);
    assert_eq!(bar.messages.len(), 1);
    assert_eq!(bar.messages[0].0, AxessStatusBarMessageKind::Default);
}

#[test]
fn midi_port_detection() {
    let ports = MidiPorts {
        inputs: vec![
            "Focusrite USB MIDI".to_string(),
            "Axe-Fx III MIDI In".to_string(),
        ],
        outputs: vec!["Axe-Fx III MIDI Out".to_string()],
    };
    let detected = ports.detect_fractal_devices();
    assert_eq!(detected.len(), 1);
    assert_eq!(detected[0].fractal_model, Some(FractalModel::III));
    assert_eq!(detected[0].input_port_name, "Axe-Fx III MIDI In");
    assert_eq!(detected[0].output_port_name, "Axe-Fx III MIDI Out");

    let nothing = MidiPorts { inputs: vec!["piano".to_string()], outputs: vec![] };
    assert!(nothing.detect_fractal_devices().is_empty());
}

#[test]
fn legacy_validate_and_decode() {
    // A checksummed firmware frame decodes.
    let frame = [0xF0u8, 0x00, 0x01, 0x74, 0x10, 0x08, 0x0D, 0x03, 0x13, 0xF7];
    let wrapper = validate_and_decode_message(&frame).unwrap();
    assert_eq!(wrapper.model, Some(FractalModel::III));
    assert_eq!(wrapper.model_raw, Some(0x10));
    match wrapper.message {
        FractalMessage::FirmwareVersion { major, minor } => {
            assert_eq!(major, 13);
            assert_eq!(minor, 3);
        }
        other => panic!("expected a firmware version, got {:?}", other),
    }

    // The same frame with a corrupted checksum byte is rejected.
    let mut bad = frame;
    bad[8] ^= 0x01;
    assert!(validate_and_decode_message(&bad).is_none());

    // A frame without the manufacturer id is rejected.
    let foreign = [0xF0u8, 0x7E, 0x01, 0x74, 0x10, 0x08, 0x0D, 0x03, 0x6D, 0xF7];
    assert!(validate_and_decode_message(&foreign).is_none());
}

#[test]
fn legacy_parse_cases() {
    // A third-generation preset name report.
    let mut frame = vec![0xF0u8, 0x00, 0x01, 0x74, 0x10, 0x0D, 0x49, 0x02];
    frame.extend(b"Eruption   \x00");
    frame.extend([0x00, 0xF7]);
    let wrapper = parse_message(&frame);
    match wrapper.message {
        FractalMessage::PresetName(number, name) => {
            assert_eq!(number, 0x49 + 2 * 128);
            assert_eq!(name, "Eruption");
        }
        other => panic!("expected a preset name, got {:?}", other),
    }

    // A legacy-generation scene number report is one-based.
    let frame = [0xF0u8, 0x00, 0x01, 0x74, 0x03, 0x29, 0x04, 0x00, 0xF7];
    match parse_message(&frame).message {
        FractalMessage::CurrentSceneNumber(n) => assert_eq!(n, 5),
        other => panic!("expected a scene number, got {:?}", other),
    }

    // An unknown function keeps the whole frame.
    let frame = [0xF0u8, 0x00, 0x01, 0x74, 0x10, 0x33, 0x00, 0x00, 0xF7];
    match parse_message(&frame).message {
        FractalMessage::Unknown(raw) => assert_eq!(raw.as_slice(), &frame),
        other => panic!("expected the raw bytes back, got {:?}", other),
    }

    // A frame too short to carry a function byte stays unknown.
    let short = [0xF0u8, 0x00, 0x01];
    assert!(matches!(parse_message(&short).message, FractalMessage::Unknown(_)));
}
