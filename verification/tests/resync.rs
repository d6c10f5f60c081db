use axess::buffer::MessagesBuffer;
use axess::messages::FractalAudioMessages;

const MSG_PRESET: [u8; 10] = [0xF0, 0x0, 0x1, 0x74, 0x11, 0xD, 0x7F, 0x7F, 0x19, 0xF7];
const MSG_SCENE: [u8; 9] = [0xF0, 0x0, 0x1, 0x74, 0x11, 0xE, 0x7F, 0x65, 0xF7];

#[test]
fn test_messages_with_random_stuff() {
    let msg1 = MSG_PRESET;
    let msg2 = MSG_SCENE;

    let random = 100..132;

    let mut buffer = MessagesBuffer::new();
    for r in random.clone() {
        let r = buffer.parse(&[r]);
        assert!(r.is_empty());
    }

    let mut r1 = None;
    for &m in &msg1 {
        let r = buffer.parse(&[m]);
        if r.first().is_some() {
            r1 = r.first().cloned();
        }
    }
    assert!(r1.is_some());

    for r in random.clone() {
        let r = buffer.parse(&[r]);
        assert!(r.is_empty());
    }

    let mut r2 = None;
    for &m in &msg2 {
        let r = buffer.parse(&[m]);
        if r.first().is_some() {
            r2 = r.first().cloned();
        }
    }
    assert!(r2.is_some());

    assert_eq!(0, buffer.pending_len());
}

#[test]
fn fragmentation_yields_one_message() {
    // Whole frame at once.
    let mut whole = MessagesBuffer::new();
    let msgs = whole.parse(&MSG_PRESET);
    assert_eq!(msgs.len(), 1);
    assert!(matches!(msgs[0], FractalAudioMessages::Preset(ref p) if p.number == 0x3FFF));
    assert_eq!(whole.pending_len(), 0);

    // The same frame, one byte at a time.
    let mut buffer = MessagesBuffer::new();
    let mut decoded = Vec::new();
    for &b in MSG_PRESET.iter() {
        decoded.extend(buffer.parse(&[b]));
    }
    assert_eq!(decoded.len(), 1);
    assert!(matches!(decoded[0], FractalAudioMessages::Preset(ref p) if p.number == 0x3FFF));
    assert_eq!(buffer.pending_len(), 0);

    // And split at every possible single cut.
    for cut in 1..MSG_PRESET.len() {
        let mut buffer = MessagesBuffer::new();
        let mut decoded = Vec::new();
        decoded.extend(buffer.parse(&MSG_PRESET[..cut]));
        decoded.extend(buffer.parse(&MSG_PRESET[cut..]));
        assert_eq!(decoded.len(), 1);
        assert_eq!(buffer.pending_len(), 0);
    }
}

#[test]
fn noise_around_two_frames() {
    let mut stream = Vec::new();
    stream.extend([0x01u8, 0x42, 0x7F, 0x33]);
    stream.extend(MSG_PRESET);
    stream.extend([0x00u8, 0x19]);
    stream.extend(MSG_SCENE);

    let mut buffer = MessagesBuffer::new();
    let msgs = buffer.parse(&stream);
    assert_eq!(msgs.len(), 2);
    assert!(matches!(msgs[0], FractalAudioMessages::Preset(_)));
    assert!(matches!(msgs[1], FractalAudioMessages::Scene(_)));
    assert_eq!(buffer.pending_len(), 0);
}

#[test]
fn corrupted_frame_dropped_stream_recovers() {
    let mut corrupted = MSG_PRESET;
    corrupted[6] ^= 0x01;

    let mut stream = Vec::new();
    stream.extend(corrupted);
    stream.extend(MSG_SCENE);

    let mut buffer = MessagesBuffer::new();
    let msgs = buffer.parse(&stream);
    assert_eq!(msgs.len(), 1);
    assert!(matches!(msgs[0], FractalAudioMessages::Scene(_)));
    assert_eq!(buffer.pending_len(), 0);
}

#[test]
fn trailing_noise_stays_buffered() {
    let mut stream = Vec::new();
    stream.extend(MSG_SCENE);
    stream.extend([0x10u8, 0x20, 0x30]);

    let mut buffer = MessagesBuffer::new();
    let msgs = buffer.parse(&stream);
    assert_eq!(msgs.len(), 1);
    assert_eq!(buffer.pending_len(), 3);
}

#[test]
fn two_frames_in_one_feed_both_decode() {
    let mut stream = Vec::new();
    stream.extend(MSG_PRESET);
    stream.extend(MSG_PRESET);
    stream.extend(MSG_SCENE);

    let mut buffer = MessagesBuffer::new();
    let msgs = buffer.parse(&stream);
    assert_eq!(msgs.len(), 3);
    assert_eq!(buffer.pending_len(), 0);
}

#[test]
fn unknown_frame_passes_through_the_buffer() {
    // Function code 0x14 is registered to no schema; the frame still
    // comes out whole between two typed neighbours.
    let unknown = [0xF0u8, 0x00, 0x01, 0x74, 0x11, 0x14, 0x02, 0x02, 0xF7];
    let mut stream = Vec::new();
    stream.extend(MSG_PRESET);
    stream.extend(unknown);
    stream.extend(MSG_SCENE);

    let mut buffer = MessagesBuffer::new();
    let msgs = buffer.parse(&stream);
    assert_eq!(msgs.len(), 3);
    assert!(matches!(msgs[0], FractalAudioMessages::Preset(_)));
    match &msgs[1] {
        FractalAudioMessages::Unknown(raw) => assert_eq!(raw.as_slice(), &unknown),
        other => panic!("expected the raw frame, got {:?}", other),
    }
    assert!(matches!(msgs[2], FractalAudioMessages::Scene(_)));
    assert_eq!(buffer.pending_len(), 0);
}

#[test]
fn test_parse_blocks() {
    let raw = [
        0xf0, 0x00, 0x01, 0x74, 0x10, 0x13, 0x3a, 0x00, 0x40, 0x3e, 0x00, 0x40, 0x2e, 0x00, 0x40,
        0x46, 0x00, 0x40, 0x7a, 0x00, 0x40, 0x3a, 0x01, 0x10, 0x36, 0x01, 0x10, 0x76, 0x00, 0x42,
        0x77, 0x00, 0x41, 0x25, 0x00, 0x40, 0x7e, 0x00, 0x40, 0x2a, 0x00, 0x40, 0x6e, 0x00, 0x41,
        0x32, 0x01, 0x40, 0x42, 0x00, 0x40, 0x43, 0x00, 0x40, 0x6a, 0x00, 0x41, 0x66, 0x00, 0x40,
        0x26, 0x01, 0x10, 0x49, 0x01, 0x10, 0x48, 0x01, 0x10, 0x09, 0xf7,
    ];
    let msg = axess::messages::parse_sysex_message(&raw).unwrap();
    assert!(matches!(msg, FractalAudioMessages::Effects(_)));
}

#[test]
fn test_effect_status_dump() {
    let msg = vec![
        0xf0, 0x00, 0x01, 0x74, 0x10, 0x13, 0x3a, 0x00, 0x40, 0x3e, 0x00, 0x40, 0x2e, 0x00, 0x40,
        0x46, 0x00, 0x40, 0x7a, 0x00, 0x40, 0x3a, 0x01, 0x10, 0x36, 0x01, 0x10, 0x76, 0x00, 0x42,
        0x77, 0x00, 0x41, 0x25, 0x00, 0x40, 0x7e, 0x00, 0x40, 0x2a, 0x00, 0x40, 0x6e, 0x00, 0x41,
        0x32, 0x01, 0x40, 0x42, 0x00, 0x40, 0x43, 0x00, 0x40, 0x6a, 0x00, 0x41, 0x66, 0x00, 0x40,
        0x26, 0x01, 0x10, 0x49, 0x01, 0x10, 0x48, 0x01, 0x10, 0x09, 0xf7,
    ];

    let es_packed = [0x3a, 0x00, 0x40];
    let es = <axess::codec::EffectStatus as axess::codec::FractalData>::parse_data(&es_packed)
        .unwrap();
    assert_eq!(es.effect_id.as_u16(), 0x3a);
    let mut packed_again: Vec<u8> = Vec::new();
    axess::codec::FractalData::append_to(&es, &mut packed_again);
    assert_eq!(&es_packed, packed_again.as_slice());

    let all_effects = match axess::messages::parse_sysex_message(&msg).unwrap() {
        FractalAudioMessages::Effects(e) => e,
        other => panic!("expected an effect status dump, got {:?}", other),
    };
    assert_eq!(all_effects.0.len(), 21);
    assert_eq!(all_effects.0[0].effect_id, 0x3a);
    assert_eq!(all_effects.0[0].supported_channels, 4);
    assert!(!all_effects.0[0].is_bypassed);
}
