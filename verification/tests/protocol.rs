use axess::checksum::{calc_checksum, validate};
use axess::codec::{Data, FractalData, FractalString32, FractalU14, FractalU7};
use axess::commands::Commands;
use axess::common::{
    decode_effect_id, decode_preset_number, decode_preset_name, checksum, disconnect_from_controller,
    get_current_preset_name, get_current_scene_name, get_firmware_version, get_scene_name,
    set_preset_number, set_scene_number, with_checksum, wrap_msg,
};
use axess::error::FractalProtocolError;
use axess::functions::FractalFunction;
use axess::messages::{
    parse_sysex_message, FirmwareVersion, FractalAudioMessages, MultipurposeResponseHelper,
    PresetHelper, RawPresetAndName, SceneWithNameHelper,
};
use axess::model::{model_code, model_from_code, FractalModel};
use axess::struct_generic::{FractalAudioMessage, FractalAudioMessagePacker};

#[test]
fn test_set_preset_number() {
    assert_eq!(
        vec![
            0xF0,
            0x00,
            0x01,
            0x74,
            model_code(FractalModel::II),
            0x3C,
            0,
            127,
            69,
            0xF7
        ],
        set_preset_number(FractalModel::II, 127)
    );
    assert_eq!(
        vec![
            0xF0,
            0x00,
            0x01,
            0x74,
            model_code(FractalModel::II),
            0x3C,
            1,
            0,
            59,
            0xF7
        ],
        set_preset_number(FractalModel::II, 128)
    );
}

#[test]
fn test_commands() {
    let commands = Commands::new(FractalModel::III);

    let mut cmd = commands.get_current_preset_info();
    assert_eq!(
        &[0xF0, 0x0, 0x1, 0x74, 0x10, 0xD, 0x7F, 0x7F, 0x18, 0xF7],
        cmd.pack().unwrap().as_slice()
    );

    let mut cmd = commands.get_current_scene_info();
    assert_eq!(
        &[0xF0, 0x0, 0x1, 0x74, 0x10, 0xE, 0x7F, 0x64, 0xF7],
        cmd.pack().unwrap().as_slice()
    );
}

#[test]
fn test_parse_resp_axe3() {
    let msg = [
        0xF0, 0x0, 0x1, 0x74, 0x10, 0x8, 0xD, 0x3, 0x10, 0x1, 0x8, 0x0, 0x0, 0xA, 0xF7,
    ];

    let decoded = parse_sysex_message(&msg).unwrap();
    let msg: FirmwareVersion = match decoded {
        FractalAudioMessages::FirmwareVersion(fw) => fw,
        other => panic!("expected a firmware version, got {:?}", other),
    };
    assert_eq!(13, msg.major);
    assert_eq!(3, msg.minor);
}

#[test]
fn test_parse_resp_fm3() {
    let raw = [0xF0, 0x0, 0x1, 0x74, 0x11, 0x8, 0x1, 0x5, 0x0, 0x0, 0x18, 0xF7];

    let decoded = parse_sysex_message(&raw).unwrap();
    let msg: FirmwareVersion = match decoded {
        FractalAudioMessages::FirmwareVersion(fw) => fw,
        other => panic!("expected a firmware version, got {:?}", other),
    };
    assert_eq!(1, msg.major);
    assert_eq!(5, msg.minor);
}

#[test]
fn should_all_parse() {
    let messages = [
        vec![0xF0, 0x0, 0x1, 0x74, 0x11, 0xC, 0x1, 0x19, 0xF7],
        vec![
            0xF0, 0x0, 0x1, 0x74, 0x11, 0xD, 0x49, 0x2, 0x45, 0x72, 0x75, 0x70, 0x74, 0x69, 0x6F,
            0x6E, 0x20, 0x20, 0x20, 0x20, 0x20, 0x20, 0x20, 0x20, 0x20, 0x20, 0x20, 0x20, 0x20,
            0x20, 0x20, 0x20, 0x20, 0x20, 0x20, 0x20, 0x20, 0x20, 0x20, 0x0, 0x5C, 0xF7,
        ],
    ];

    for msg in messages.iter() {
        assert!(parse_sysex_message(msg).is_ok());
    }
}

#[test]
fn test_generics() {
    let mut msg = FractalAudioMessage::<FractalU7>::new(
        FractalModel::III,
        FractalFunction::GET_SCENE_NAME,
        FractalU7::new_all(),
    );
    let packed = msg.pack_bytes();

    let unpacked = FractalAudioMessage::<FractalU7>::unpack_from_slice(&packed).unwrap();
    assert_eq!(msg, unpacked);

    let mut msg_unit = FractalAudioMessage::<axess::codec::DataVoid>::new(
        FractalModel::FM3,
        FractalFunction::GET_GRID_LAYOUT_AND_ROUTING,
        axess::codec::DataVoid,
    );
    msg_unit.pack_bytes();

    let mut sc = SceneWithNameHelper::set_current_scene_number(FractalModel::FM3, 111);
    sc.pack_bytes();
}

#[test]
fn checksum_round_trip_and_corruption() {
    let bytes = [0xF0u8, 0x00, 0x01, 0x74, 0x10, 0x0D, 0x7F, 0x7F];
    let crc = calc_checksum(&bytes);
    assert!(validate(&bytes, crc));

    // Any flip of a low bit is detected.
    for i in 0..bytes.len() {
        for bit in 0..7 {
            let mut corrupted = bytes;
            corrupted[i] ^= 1 << bit;
            assert!(!validate(&corrupted, crc));
        }
    }
}

#[test]
fn checksum_concrete_values() {
    // XOR of F0 00 01 74 7F 00 00 is FA; masked to 7 bits it is 7A.
    let discovery = MultipurposeResponseHelper::get_discovery_request();
    assert_eq!(discovery, vec![0xF0, 0x00, 0x01, 0x74, 0x7F, 0x00, 0x00, 0x7A, 0xF7]);
    assert_eq!(calc_checksum(&discovery[0..7]), 0x7A);

    assert_eq!(checksum(vec![0xF0, 0x00, 0x01, 0x74, 0xF7]), 0x05);
    assert_eq!(checksum(vec![0xF0, 0xF7]), 0x70);
}

#[test]
fn wrap_and_with_checksum() {
    let wrapped = wrap_msg(vec![0x10, 0x08]);
    assert_eq!(wrapped, vec![0xF0, 0x00, 0x01, 0x74, 0x10, 0x08, 0x1D, 0xF7]);

    let stamped = with_checksum(vec![0xF0, 0x00, 0x01, 0x74, 0x10, 0x08, 0xF7]);
    assert_eq!(stamped, wrapped);

    assert_eq!(get_firmware_version(0x10), wrapped);
}

#[test]
fn query_builders_build_valid_frames() {
    for msg in [
        get_current_preset_name(FractalModel::III),
        get_current_preset_name(FractalModel::II),
        get_current_scene_name(FractalModel::FM3),
        get_scene_name(FractalModel::III, 3),
        set_scene_number(FractalModel::III, 2),
        set_scene_number(FractalModel::Ultra, 2),
        disconnect_from_controller(FractalModel::III),
    ] {
        let n = msg.len();
        assert_eq!(msg[0], 0xF0);
        assert_eq!(msg[n - 1], 0xF7);
        assert_eq!(calc_checksum(&msg[0..n - 2]), msg[n - 2]);
    }
}

#[test]
fn field_decoders() {
    assert_eq!(decode_effect_id(&0x3A, &0x01), 0x3A + 128);
    assert_eq!(decode_preset_number(2, 73), 2 * 128 + 73);
    assert_eq!(decode_preset_name(b"Eruption            \x00junk"), "Eruption");
    assert_eq!(decode_preset_name(b""), "");
}

#[test]
fn codec_round_trip_preset_and_name() {
    let name = FractalString32::from_string("Eruption").unwrap();
    let mut msg: RawPresetAndName = FractalAudioMessage::new(
        FractalModel::III,
        FractalFunction::PRESET_INFO,
        Data(FractalU14::from_u16(329), name),
    );
    let packed = msg.pack_bytes();
    let unpacked = RawPresetAndName::unpack_checked(&packed).unwrap();
    assert_eq!(msg, unpacked);
    assert_eq!(unpacked.data.0.as_u16(), 329);
    assert_eq!(unpacked.data.1.try_as_string().unwrap(), "Eruption");
}

#[test]
fn codec_round_trip_other_schemas() {
    let mut preset = PresetHelper::get_preset_info(FractalModel::FM3, 412);
    let packed = preset.pack_bytes();
    let back = FractalAudioMessage::<FractalU14>::unpack_checked(&packed).unwrap();
    assert_eq!(preset, back);
    assert_eq!(back.data.as_u16(), 412);

    let mut scene = SceneWithNameHelper::get_scene_info(FractalModel::III, 5);
    let packed = scene.pack_bytes();
    let back = FractalAudioMessage::<FractalU7>::unpack_checked(&packed).unwrap();
    assert_eq!(scene, back);
    assert_eq!(back.data.value, 5);
}

#[test]
fn decode_errors_are_distinct() {
    // Too short for the envelope.
    match FractalAudioMessage::<FractalU7>::unpack_checked(&[0xF0, 0xF7]) {
        Err(FractalProtocolError::PackingError) => {}
        other => panic!("expected a packing error, got {:?}", other),
    }

    // Structurally fine but the start marker is wrong.
    let bad_start = [0xF1, 0x00, 0x01, 0x74, 0x10, 0x0E, 0x05, 0x6F, 0xF7];
    match FractalAudioMessage::<FractalU7>::unpack_checked(&bad_start) {
        Err(FractalProtocolError::ConstantMismatch { .. }) => {}
        other => panic!("expected a constant mismatch, got {:?}", other),
    }

    // Correct constants, corrupted checksum byte.
    let bad_crc = [0xF0, 0x00, 0x01, 0x74, 0x10, 0x0E, 0x05, 0x00, 0xF7];
    match FractalAudioMessage::<FractalU7>::unpack_checked(&bad_crc) {
        Err(FractalProtocolError::CrcMismatch { .. }) => {}
        other => panic!("expected a checksum mismatch, got {:?}", other),
    }

    // An unknown function code is told apart from a shape mismatch.
    let unknown_function = [0xF0, 0x00, 0x01, 0x74, 0x10, 0x7E, 0x05, 0x19, 0xF7];
    match FractalAudioMessage::<FractalU7>::unpack_checked(&unknown_function) {
        Err(FractalProtocolError::UnknownValue { .. }) => {}
        other => panic!("expected an unknown-value error, got {:?}", other),
    }

    // A delimited candidate that is no frame at all is an error.
    let mangled = [0xF0, 0x00, 0x01, 0x74, 0x10, 0x0E, 0x05, 0x00, 0xF7];
    match parse_sysex_message(&mangled) {
        Err(FractalProtocolError::UnknownMessage) => {}
        other => panic!("expected an unknown message, got {:?}", other),
    }
}

#[test]
fn unclaimed_frames_surface_as_unknown() {
    // A valid frame whose function code no schema claims is kept whole,
    // not dropped.
    let mut unclaimed = FractalAudioMessage::<FractalU7>::new(
        FractalModel::III,
        FractalFunction::REQUEST_TEMPO,
        FractalU7::from_byte(1),
    );
    let packed = unclaimed.pack_bytes();
    match parse_sysex_message(&packed) {
        Ok(FractalAudioMessages::Unknown(raw)) => assert_eq!(raw, packed),
        other => panic!("expected the raw frame back, got {:?}", other),
    }

    // So is a checksummed frame whose payload fits no schema for its
    // function code.
    let mut wrong_shape = FractalAudioMessage::<FractalU7>::new(
        FractalModel::III,
        FractalFunction::GET_FIRMWARE_VERSION,
        FractalU7::from_byte(1),
    );
    let packed = wrong_shape.pack_bytes();
    assert!(matches!(
        parse_sysex_message(&packed),
        Ok(FractalAudioMessages::Unknown(_))
    ));
}

#[test]
fn string32_padding_and_trimming() {
    let s = FractalString32::from_string("OK").unwrap();
    assert_eq!(s.data.len(), 32);
    assert_eq!(&s.data[0..2], b"OK");
    assert!(s.data[2..].iter().all(|b| *b == 0));
    assert_eq!(s.try_as_string().unwrap(), "OK");

    // Non-ASCII names cannot live in the fixed ASCII field.
    assert!(FractalString32::from_string("émotion").is_none());

    // Longer names are truncated to the field's width.
    let long = FractalString32::from_string("abcdefghijklmnopqrstuvwxyz0123456789").unwrap();
    assert_eq!(long.try_as_string().unwrap(), "abcdefghijklmnopqrstuvwxyz012345");
}

#[test]
fn model_codes() {
    assert_eq!(model_code(FractalModel::III), 0x10);
    assert_eq!(model_from_code(0x11), Some(FractalModel::FM3));
    assert_eq!(model_from_code(0x0C), None);
    assert_eq!(FractalModel::III.number_of_presets(), Some(512));
    assert_eq!(FractalModel::II.number_of_presets(), None);
    assert_eq!(FractalModel::FM3.number_of_scenes(), Some(8));
}
