//! The legacy frame parser: validates a delimited frame's constants and
//! checksum, then reads its function byte and payload into a loosely
//! typed message, keyed on the device generation the model byte names.

use vstd::prelude::*;
use crate::checksum::spec_checksum;
use crate::common::{
    decode_effect_id, decode_preset_name, decode_preset_number, spec_decode_effect_id,
    spec_decode_preset_number, spec_preset_name, MidiMessage, TunerStatus,
};
use crate::model::{model_from_code, spec_model_from_code, FractalModel};

verus! {

/// A loosely typed decoded message of the legacy parser.
#[derive(Debug, Clone, PartialEq)]
pub enum FractalMessage {
    Unknown(MidiMessage),
    LooperState {
        record: bool,
        play: bool,
        overdub: bool,
        once: bool,
        reverse: bool,
        half_speed: bool,
    },
    CurrentPresetNumber(u32),
    PresetName(u32, String),
    SceneName(u8, String),
    CurrentPresetName(String),
    CurrentSceneNumber(u8),
    CurrentTempo(u32),
    FirmwareVersion { major: u8, minor: u8 },
    FrontPanelChangeDetected,
    MIDITempoBeat,
    MIDIChannel(u8),
    TunerInfo { note: u8, string_number: u8, tuner_data: u8 },
    TunerStatus(TunerStatus),
    MultipurposeResponse { function_id: u8, response_code: u8 },
}

/// A decoded message together with the raw model byte it came with.
#[derive(Debug, Clone)]
pub struct FractalMessageWrapper {
    pub model_raw: Option<u8>,
    pub model: Option<FractalModel>,
    pub message: FractalMessage,
}

/// What the legacy parser must decode the bytes to: one case per
/// function code and device generation, and the raw bytes where no case
/// fits or the payload is too short to read.
pub open spec fn spec_legacy_message(m: Seq<u8>, r: FractalMessage) -> bool {
    let n = m.len() as int;
    let three = n > 4 && (m[4] == 0x10 || m[4] == 0x11);
    if n <= 5 {
        r matches FractalMessage::Unknown(v) && v@ == m
    } else {
        let f = m[5];
        if three && f == 0x14 && n >= 8 {
            r matches FractalMessage::CurrentTempo(t) && t == spec_decode_effect_id(m[6], m[7])
        } else if !three && f == 0x14 && n >= 8 {
            r matches FractalMessage::CurrentPresetNumber(t) && t == spec_decode_preset_number(
                m[6],
                m[7],
            )
        } else if f == 0x21 {
            r matches FractalMessage::FrontPanelChangeDetected
        } else if f == 0x08 && n >= 8 {
            r matches FractalMessage::FirmwareVersion { major, minor } && major == m[6] && minor
                == m[7]
        } else if three && f == 0x0D && n >= 8 {
            r matches FractalMessage::PresetName(num, name) && num == spec_decode_effect_id(
                m[6],
                m[7],
            ) && name@ == spec_preset_name(m.skip(8))
        } else if f == 0x0F {
            r matches FractalMessage::CurrentPresetName(name) && name@ == spec_preset_name(
                m.skip(6),
            )
        } else if f == 0x10 {
            r matches FractalMessage::MIDITempoBeat
        } else if f == 0x11 && n >= 7 {
            r matches FractalMessage::TunerStatus(t) && t == (if m[6] == 0 {
                TunerStatus::Off
            } else {
                TunerStatus::On
            })
        } else if f == 0x17 && n >= 7 && m[6] < 255 {
            r matches FractalMessage::MIDIChannel(ch) && ch == m[6] + 1
        } else if !three && f == 0x0D && n >= 9 {
            r matches FractalMessage::TunerInfo { note, string_number, tuner_data } && note == m[6]
                && string_number == m[7] && tuner_data == m[8]
        } else if three && f == 0x0E && n >= 7 {
            r matches FractalMessage::SceneName(sc, name) && sc == m[6] && name@
                == spec_preset_name(m.skip(7))
        } else if f == 0x29 && n >= 7 && m[6] < 255 {
            r matches FractalMessage::CurrentSceneNumber(sc) && sc == m[6] + 1
        } else if three && f == 0x0C && n >= 7 {
            r matches FractalMessage::CurrentSceneNumber(sc) && sc == m[6]
        } else if f == 0x64 && n >= 8 {
            r matches FractalMessage::MultipurposeResponse { function_id, response_code }
                && function_id == m[6] && response_code == m[7]
        } else {
            r matches FractalMessage::Unknown(v) && v@ == m
        }
    }
}

/// Reads a delimited frame's function byte and payload into a message.
/// A frame whose function and generation no case covers, or whose
/// payload is too short for its case, is kept whole as `Unknown`.
pub fn parse_message(msg: &[u8]) -> (r: FractalMessageWrapper)
    ensures
        r.model_raw == (if msg@.len() > 4 {
            Some(msg@[4])
        } else {
            None::<u8>
        }),
        r.model == (if msg@.len() > 4 {
            spec_model_from_code(msg@[4])
        } else {
            None::<FractalModel>
        }),
        spec_legacy_message(msg@, r.message),
{
    let n = msg.len();
    let model_raw = if n > 4 {
        Some(msg[4])
    } else {
        None
    };
    let model = match model_raw {
        Some(c) => model_from_code(c),
        None => None,
    };
    let three = n > 4 && (msg[4] == 0x10 || msg[4] == 0x11);

    let message = if n <= 5 {
        FractalMessage::Unknown(vstd::slice::slice_to_vec(msg))
    } else {
        let f = msg[5];
        if three && f == 0x14 && n >= 8 {
            FractalMessage::CurrentTempo(decode_effect_id(&msg[6], &msg[7]))
        } else if !three && f == 0x14 && n >= 8 {
            FractalMessage::CurrentPresetNumber(decode_preset_number(msg[6], msg[7]))
        } else if f == 0x21 {
            FractalMessage::FrontPanelChangeDetected
        } else if f == 0x08 && n >= 8 {
            FractalMessage::FirmwareVersion { major: msg[6], minor: msg[7] }
        } else if three && f == 0x0D && n >= 8 {
            let name = decode_preset_name(&msg[8..n]);
            proof {
                assert(msg@.subrange(8, n as int) =~= msg@.skip(8));
            }
            FractalMessage::PresetName(decode_effect_id(&msg[6], &msg[7]), name)
        } else if f == 0x0F {
            let name = decode_preset_name(&msg[6..n]);
            proof {
                assert(msg@.subrange(6, n as int) =~= msg@.skip(6));
            }
            FractalMessage::CurrentPresetName(name)
        } else if f == 0x10 {
            FractalMessage::MIDITempoBeat
        } else if f == 0x11 && n >= 7 {
            FractalMessage::TunerStatus(
                if msg[6] == 0 {
                    TunerStatus::Off
                } else {
                    TunerStatus::On
                },
            )
        } else if f == 0x17 && n >= 7 && msg[6] < 255 {
            FractalMessage::MIDIChannel(msg[6] + 1)
        } else if !three && f == 0x0D && n >= 9 {
            FractalMessage::TunerInfo {
                note: msg[6],
                string_number: msg[7],
                tuner_data: msg[8],
            }
        } else if three && f == 0x0E && n >= 7 {
            let name = decode_preset_name(&msg[7..n]);
            proof {
                assert(msg@.subrange(7, n as int) =~= msg@.skip(7));
            }
            FractalMessage::SceneName(msg[6], name)
        } else if f == 0x29 && n >= 7 && msg[6] < 255 {
            FractalMessage::CurrentSceneNumber(msg[6] + 1)
        } else if three && f == 0x0C && n >= 7 {
            FractalMessage::CurrentSceneNumber(msg[6])
        } else if f == 0x64 && n >= 8 {
            FractalMessage::MultipurposeResponse { function_id: msg[6], response_code: msg[7] }
        } else {
            FractalMessage::Unknown(vstd::slice::slice_to_vec(msg))
        }
    };

    FractalMessageWrapper { model_raw, model, message }
}

/// The frame checks of the legacy pipeline: minimum length, the markers
/// and manufacturer id, and the checksum over everything before the
/// checksum byte.
pub open spec fn spec_legacy_frame_ok(m: Seq<u8>) -> bool {
    &&& m.len() > 5
    &&& m[0] == 0xF0
    &&& m[1] == 0x00
    &&& m[2] == 0x01
    &&& m[3] == 0x74
    &&& m[m.len() - 1] == 0xF7
    &&& m[m.len() - 2] == spec_checksum(m.take(m.len() - 2))
}

/// Validates one delimited frame and, exactly when it is valid, decodes
/// it with the legacy parser; an invalid frame yields nothing.
pub fn validate_and_decode_message(msg: &[u8]) -> (r: Option<FractalMessageWrapper>)
    ensures
        (r is Some) == spec_legacy_frame_ok(msg@),
        r matches Some(w) ==> {
            &&& w.model_raw == Some(msg@[4])
            &&& w.model == spec_model_from_code(msg@[4])
            &&& spec_legacy_message(msg@, w.message)
        },
{
    let n = msg.len();
    if n > 5 && msg[0] == 0xF0 && msg[1] == 0x00 && msg[2] == 0x01 && msg[3] == 0x74 && msg[n - 1]
        == 0xF7 {
        let crc_byte = msg[n - 2];
        let body = &msg[0..n - 2];
        proof {
            assert(body@ =~= msg@.take(n - 2));
        }
        let calc = crate::checksum::calc_checksum(body);
        if calc == crc_byte {
            Some(parse_message(msg))
        } else {
            None
        }
    } else {
        None
    }
}

} // verus!
