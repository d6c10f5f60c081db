//! The plain byte-level message builders: wrap a function code and its
//! 7-bit arguments between the frame header and the checksummed end
//! marker, and the small field decoders the legacy parser uses.

use vstd::prelude::*;
use crate::checksum::spec_checksum;
use crate::checksum::xor_fold;
use crate::consts::spec_sysex_header;
use crate::model::{model_code, spec_model_code, FractalModel};
use crate::text::{decode_name_nonzero, spec_name_nonzero};

verus! {

pub type MidiMessage = Vec<u8>;

/// Whether a device's tuner is engaged.
#[derive(Debug, Clone, Copy, PartialEq, Eq, Structural)]
pub enum TunerStatus {
    On,
    Off,
}

/// The 14-bit value two 7-bit bytes carry, low byte first.
pub open spec fn spec_decode_effect_id(a: u8, b: u8) -> u32 {
    ((a % 0x80) + (b % 0x80) * 0x80) as u32
}

/// Reads a 14-bit identifier out of its two wire bytes, low byte first.
pub fn decode_effect_id(a: &u8, b: &u8) -> (r: u32)
    ensures
        r == spec_decode_effect_id(*a, *b),
{
    (*a % 0x80) as u32 + (*b % 0x80) as u32 * 0x80
}

/// The preset number two bytes carry in the legacy high-byte-first
/// encoding; the second byte is taken whole.
pub open spec fn spec_decode_preset_number(lsb: u8, rsb: u8) -> u32 {
    (((lsb as u32) & 0x7F) << 7) | (rsb as u32)
}

/// Reads a preset number in the legacy high-byte-first encoding.
pub fn decode_preset_number(lsb: u8, rsb: u8) -> (r: u32)
    ensures
        r == spec_decode_preset_number(lsb, rsb),
        rsb < 0x80 ==> r == (lsb % 0x80) * 0x80 + rsb,
{
    let r = (((lsb as u32) & 0x7F) << 7) | (rsb as u32);
    proof {
        let l = lsb;
        let s = rsb;
        assert(s < 0x80 ==> ((((l as u32) & 0x7F) << 7) | (s as u32)) == ((l % 0x80) as u32) * 0x80
            + (s as u32)) by (bit_vector);
    }
    r
}

/// The display name held in a name field: at most 32 bytes, cut at the
/// first NUL, trailing whitespace stripped.
pub open spec fn spec_preset_name(m: Seq<u8>) -> Seq<char> {
    spec_name_nonzero(if m.len() <= 32 {
        m
    } else {
        m.take(32)
    })
}

/// Decodes a display name from a raw name field.
pub fn decode_preset_name(msg: &[u8]) -> (r: String)
    ensures
        r@ == spec_preset_name(msg@),
{
    let limit: usize = if msg.len() <= 32 {
        msg.len()
    } else {
        32
    };
    let r = decode_name_nonzero(&msg[0..limit]);
    proof {
        if msg@.len() <= 32 {
            assert(msg@.subrange(0, limit as int) =~= msg@);
        } else {
            assert(msg@.subrange(0, limit as int) =~= msg@.take(32));
        }
    }
    r
}

/// The checksum a message is stamped with: the XOR of every byte before
/// its final end marker, masked to 7 bits.
pub fn checksum(msg: MidiMessage) -> (r: u8)
    requires
        msg@.len() >= 2,
    ensures
        r == spec_checksum(msg@.take(msg@.len() - 1)),
{
    checksum_of_body(&msg)
}

/// A message with its checksum stamped in front of its final byte: the
/// body, the checksum of the body, then the original terminator.
pub fn with_checksum(msg: MidiMessage) -> (r: MidiMessage)
    requires
        msg@.len() >= 2,
    ensures
        r@ == msg@.take(msg@.len() - 1) + seq![
            spec_checksum(msg@.take(msg@.len() - 1)),
            msg@.last(),
        ],
{
    let term = msg[msg.len() - 1];
    let crc = checksum_of_body(&msg);
    let mut r: Vec<u8> = Vec::new();
    let end = msg.len() - 1;
    let mut i: usize = 0;
    while i < end
        invariant
            i <= end,
            end == msg@.len() - 1,
            r@ == msg@.take(i as int),
        decreases end - i,
    {
        r.push(msg[i]);
        proof {
            assert(msg@.take(i + 1) =~= msg@.take(i as int).push(msg@[i as int]));
        }
        i = i + 1;
    }
    r.push(crc);
    r.push(term);
    proof {
        assert(r@ =~= msg@.take(msg@.len() - 1) + seq![
            spec_checksum(msg@.take(msg@.len() - 1)),
            msg@.last(),
        ]);
    }
    r
}

fn checksum_of_body(msg: &MidiMessage) -> (r: u8)
    requires
        msg@.len() >= 2,
    ensures
        r == spec_checksum(msg@.take(msg@.len() - 1)),
{
    let end = msg.len() - 1;
    let mut sum: u8 = msg[0];
    let mut i: usize = 1;
    proof {
        assert(xor_fold(Seq::<u8>::empty()) == 0);
        assert(msg@.take(end as int).take(1).drop_last() =~= Seq::<u8>::empty());
        assert(msg@.take(end as int).take(1).last() == msg@[0]);
        let x = msg@[0];
        assert(0u8 ^ x == x) by (bit_vector);
    }
    while i < end
        invariant
            1 <= i <= end,
            end == msg@.len() - 1,
            sum == xor_fold(msg@.take(end as int).take(i as int)),
        decreases end - i,
    {
        proof {
            let t = msg@.take(end as int);
            assert(t.take(i + 1).drop_last() =~= t.take(i as int));
            assert(t.take(i + 1).last() == msg@[i as int]);
        }
        sum = sum ^ msg[i];
        i = i + 1;
    }
    proof {
        assert(msg@.take(end as int).take(end as int) =~= msg@.take(end as int));
    }
    sum & 0x7F
}

/// The frame a function's argument bytes wrap to: header, the bytes,
/// the checksum over everything so far, and the end marker.
pub open spec fn spec_wrap_msg(m: Seq<u8>) -> Seq<u8> {
    let body = spec_sysex_header() + m;
    body + seq![spec_checksum(body), 0xF7u8]
}

/// Wraps argument bytes into a complete checksummed frame.
pub fn wrap_msg(msg: MidiMessage) -> (r: MidiMessage)
    ensures
        r@ == spec_wrap_msg(msg@),
{
    let mut body: Vec<u8> = Vec::new();
    body.push(0xF0);
    body.push(0x00);
    body.push(0x01);
    body.push(0x74);
    let mut i: usize = 0;
    while i < msg.len()
        invariant
            i <= msg@.len(),
            body@ == spec_sysex_header() + msg@.take(i as int),
        decreases msg@.len() - i,
    {
        body.push(msg[i]);
        proof {
            assert(spec_sysex_header() + msg@.take(i + 1) =~= (spec_sysex_header() + msg@.take(
                i as int,
            )).push(msg@[i as int]));
        }
        i = i + 1;
    }
    proof {
        assert(body@ =~= spec_sysex_header() + msg@);
        assert(body@.len() >= 4);
    }
    let crc = crate::checksum::calc_checksum(body.as_slice());
    body.push(crc);
    body.push(0xF7);
    proof {
        assert(body@ =~= spec_wrap_msg(msg@));
    }
    body
}

/// The query for the current preset's name; the third-generation
/// families take a preset-info query with the "current" sentinel, older
/// families a dedicated function code.
pub fn get_current_preset_name(model: FractalModel) -> (r: MidiMessage)
    ensures
        (model == FractalModel::III || model == FractalModel::FM3) ==> r@ == spec_wrap_msg(
            seq![spec_model_code(model), 0x0Du8, 0x7Fu8, 0x7Fu8],
        ),
        !(model == FractalModel::III || model == FractalModel::FM3) ==> r@ == spec_wrap_msg(
            seq![spec_model_code(model), 0x0Fu8],
        ),
{
    if model == FractalModel::III || model == FractalModel::FM3 {
        let mut v: Vec<u8> = Vec::new();
        v.push(model_code(model));
        v.push(0x0D);
        v.push(0x7F);
        v.push(0x7F);
        proof {
            assert(v@ =~= seq![spec_model_code(model), 0x0Du8, 0x7Fu8, 0x7Fu8]);
        }
        wrap_msg(v)
    } else {
        let mut v: Vec<u8> = Vec::new();
        v.push(model_code(model));
        v.push(0x0F);
        proof {
            assert(v@ =~= seq![spec_model_code(model), 0x0Fu8]);
        }
        wrap_msg(v)
    }
}

/// The firmware-version query, from a raw model code byte.
pub fn get_firmware_version(model_code: u8) -> (r: MidiMessage)
    ensures
        r@ == spec_wrap_msg(seq![model_code, 0x08u8]),
{
    let mut v: Vec<u8> = Vec::new();
    v.push(model_code);
    v.push(0x08);
    proof {
        assert(v@ =~= seq![model_code, 0x08u8]);
    }
    wrap_msg(v)
}

/// The courtesy message releasing the controller.
pub fn disconnect_from_controller(model: FractalModel) -> (r: MidiMessage)
    ensures
        r@ == spec_wrap_msg(seq![spec_model_code(model), 0x42u8]),
{
    let mut v: Vec<u8> = Vec::new();
    v.push(model_code(model));
    v.push(0x42);
    proof {
        assert(v@ =~= seq![spec_model_code(model), 0x42u8]);
    }
    wrap_msg(v)
}

/// The query for the current scene's name, via the "current" sentinel.
pub fn get_current_scene_name(model: FractalModel) -> (r: MidiMessage)
    ensures
        r@ == spec_wrap_msg(seq![spec_model_code(model), 0x0Eu8, 0x7Fu8]),
{
    get_scene_name(model, 0x7F)
}

/// The query for one scene's name.
pub fn get_scene_name(model: FractalModel, scene: u8) -> (r: MidiMessage)
    ensures
        r@ == spec_wrap_msg(seq![spec_model_code(model), 0x0Eu8, scene]),
{
    let mut v: Vec<u8> = Vec::new();
    v.push(model_code(model));
    v.push(0x0E);
    v.push(scene);
    proof {
        assert(v@ =~= seq![spec_model_code(model), 0x0Eu8, scene]);
    }
    wrap_msg(v)
}

/// The two bytes of a preset number in the legacy high-byte-first
/// encoding.
fn encode_preset_number(n: u32) -> (r: (u8, u8))
    ensures
        r.0 == ((n / 0x80) % 0x100) as u8,
        r.1 == (n % 0x80) as u8,
{
    let r = (((n >> 7) % 0x100) as u8, (n & 0x7F) as u8);
    proof {
        let m = n;
        assert((m >> 7) % 0x100 == (m / 0x80) % 0x100) by (bit_vector);
        assert((m & 0x7F) == m % 0x80) by (bit_vector);
    }
    r
}

/// The command selecting a preset by number, high byte first.
pub fn set_preset_number(model: FractalModel, n: u32) -> (r: MidiMessage)
    ensures
        r@ == spec_wrap_msg(
            seq![
                spec_model_code(model),
                0x3Cu8,
                ((n / 0x80) % 0x100) as u8,
                (n % 0x80) as u8,
            ],
        ),
{
    let (a, b) = encode_preset_number(n);
    let mut v: Vec<u8> = Vec::new();
    v.push(model_code(model));
    v.push(0x3C);
    v.push(a);
    v.push(b);
    proof {
        assert(v@ =~= seq![
            spec_model_code(model),
            0x3Cu8,
            ((n / 0x80) % 0x100) as u8,
            (n % 0x80) as u8,
        ]);
    }
    wrap_msg(v)
}

/// The command selecting a scene; the third-generation families use the
/// scene get/set function, older families a dedicated code.
pub fn set_scene_number(model: FractalModel, scene_number: u8) -> (r: MidiMessage)
    ensures
        r@ == spec_wrap_msg(
            seq![
                spec_model_code(model),
                (if model == FractalModel::III || model == FractalModel::FM3 {
                    0x0Cu8
                } else {
                    0x29u8
                }),
                scene_number,
            ],
        ),
{
    let command: u8 = if model == FractalModel::III || model == FractalModel::FM3 {
        0x0C
    } else {
        0x29
    };
    let mut v: Vec<u8> = Vec::new();
    v.push(model_code(model));
    v.push(command);
    v.push(scene_number);
    proof {
        assert(v@ =~= seq![
            spec_model_code(model),
            (if model == FractalModel::III || model == FractalModel::FM3 {
                0x0Cu8
            } else {
                0x29u8
            }),
            scene_number,
        ]);
    }
    wrap_msg(v)
}

} // verus!
