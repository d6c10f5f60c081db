//! The generic message envelope: a fixed header, one function byte, a
//! payload of any codec shape, and a footer holding the checksum and the
//! end marker. Packing stamps the checksum; unpacking re-validates it
//! independently of frame-level validation.

use vstd::prelude::*;
use vstd::string::StringExecFns;
use crate::checksum::{calc_checksum, spec_checksum};
use crate::codec::FractalData;
use crate::consts::{is_non_marker, SYSEX_END, SYSEX_START};
use crate::error::FractalProtocolError;
use crate::functions::{
    function_code, function_from_code, spec_function_code, spec_function_from_code, FractalFunction,
};
use crate::model::{
    model_code, model_from_code, spec_model_code, spec_model_from_code, FractalModel,
};

verus! {

/// The frame header: start marker, manufacturer id, model byte.
#[derive(Debug, Clone, Copy, PartialEq)]
pub struct FractalHeader {
    pub sysex_message_start: u8,
    pub sysex_manufacturer: [u8; 3],
    pub model: FractalModel,
}

impl FractalHeader {
    /// The header's five wire bytes.
    pub open spec fn spec_bytes(&self) -> Seq<u8> {
        seq![
            self.sysex_message_start,
            self.sysex_manufacturer[0],
            self.sysex_manufacturer[1],
            self.sysex_manufacturer[2],
            spec_model_code(self.model),
        ]
    }

    /// The constant bytes hold their required values.
    pub open spec fn wf(&self) -> bool {
        &&& self.sysex_message_start == 0xF0
        &&& self.sysex_manufacturer[0] == 0x00
        &&& self.sysex_manufacturer[1] == 0x01
        &&& self.sysex_manufacturer[2] == 0x74
    }

    pub fn new(model: FractalModel) -> (r: Self)
        ensures
            r.wf(),
            r.model == model,
    {
        FractalHeader {
            sysex_message_start: SYSEX_START,
            sysex_manufacturer: [0x00, 0x01, 0x74],
            model,
        }
    }
}

impl Default for FractalHeader {
    fn default() -> (r: Self)
        ensures
            r.wf(),
            r.model == FractalModel::Standard,
    {
        FractalHeader::new(FractalModel::Standard)
    }
}

/// The frame footer: checksum byte and end marker.
#[derive(Debug, Clone, Copy, PartialEq, Eq, Structural)]
pub struct FractalFooter {
    pub checksum: u8,
    pub sysex_message_stop: u8,
}

impl Default for FractalFooter {
    fn default() -> (r: Self)
        ensures
            r.checksum == 0,
            r.sysex_message_stop == SYSEX_END,
    {
        FractalFooter { checksum: 0, sysex_message_stop: SYSEX_END }
    }
}

/// A full wire message around any payload shape.
#[derive(Debug, Clone, PartialEq)]
pub struct FractalAudioMessage<TData> {
    pub header: FractalHeader,
    pub function: FractalFunction,
    pub data: TData,
    pub footer: FractalFooter,
}

/// Exposes the function code of a decoded message.
pub trait FractalAudioMessageFunction {
    fn get_function(&self) -> FractalFunction;
}

/// Packs a message to its wire bytes, stamping the checksum.
pub trait FractalAudioMessagePacker {
    /// What packing requires of the value.
    spec fn pack_wf(&self) -> bool;

    /// The bytes the value packs to.
    spec fn spec_packed(&self) -> Seq<u8>;

    fn pack(&mut self) -> (r: Result<Vec<u8>, FractalProtocolError>)
        requires
            old(self).pack_wf(),
        ensures
            r matches Ok(v) && v@ == old(self).spec_packed(),
            final(self).pack_wf(),
            final(self).spec_packed() == old(self).spec_packed(),
    ;
}

/// Unpacks a message from its wire bytes, re-validating the checksum.
pub trait FractalAudioMessageUnpacker where Self: Sized {
    fn unpack_from_slice_with_crc_check(src: &[u8]) -> Result<Self, FractalProtocolError>;
}

/// Whether the model and function bytes hold known codes: the line
/// between an unknown-code rejection and a size or shape rejection.
pub open spec fn spec_codes_known(b: Seq<u8>) -> bool {
    &&& spec_model_from_code(b[4]) is Some
    &&& spec_function_from_code(b[5]) is Some
}

/// Whether the bytes carry the structural layout of a message with this
/// payload shape: minimum length, known model and function codes, and an
/// accepted payload. Constants and checksum are frame-level concerns.
pub open spec fn spec_struct_accepts<TData: FractalData>(b: Seq<u8>) -> bool {
    &&& b.len() >= 8
    &&& spec_model_from_code(b[4]) is Some
    &&& spec_function_from_code(b[5]) is Some
    &&& TData::spec_accepts(b.subrange(6, b.len() - 2))
}

/// Whether the bytes are a complete valid frame of this payload shape:
/// structurally sound, delimited by the markers around the manufacturer
/// id, and checksummed.
pub open spec fn spec_frame_accepts<TData: FractalData>(b: Seq<u8>) -> bool {
    &&& spec_struct_accepts::<TData>(b)
    &&& b[0] == 0xF0
    &&& b[1] == 0x00
    &&& b[2] == 0x01
    &&& b[3] == 0x74
    &&& b[b.len() - 1] == 0xF7
    &&& b[b.len() - 2] == spec_checksum(b.take(b.len() - 2))
}

impl<TData: FractalData> FractalAudioMessage<TData> {
    /// The wire bytes before the footer.
    pub open spec fn spec_prefix(&self) -> Seq<u8> {
        self.header.spec_bytes() + seq![spec_function_code(self.function)]
            + self.data.spec_bytes()
    }

    /// The full wire bytes.
    pub open spec fn spec_bytes(&self) -> Seq<u8> {
        self.spec_prefix() + seq![self.footer.checksum, self.footer.sysex_message_stop]
    }

    /// A message whose constants hold, whose payload is well formed and
    /// whose checksum is correctly stamped.
    pub open spec fn wf(&self) -> bool {
        &&& self.header.wf()
        &&& self.data.wf()
        &&& self.footer.sysex_message_stop == 0xF7
        &&& self.footer.checksum == spec_checksum(self.spec_prefix())
    }

    /// A fresh message; the checksum is stamped by `pack`.
    pub fn new(model: FractalModel, func: FractalFunction, data: TData) -> (r: Self)
        ensures
            r.header.wf(),
            r.header.model == model,
            r.function == func,
            r.data == data,
            r.footer.checksum == 0,
            r.footer.sysex_message_stop == SYSEX_END,
    {
        FractalAudioMessage {
            header: FractalHeader::new(model),
            function: func,
            data,
            footer: FractalFooter::default(),
        }
    }

    /// Packs the message and stamps its checksum into the footer.
    pub fn pack_bytes(&mut self) -> (r: Vec<u8>)
        requires
            old(self).header.wf(),
            old(self).data.wf(),
            old(self).footer.sysex_message_stop == 0xF7,
        ensures
            final(self).wf(),
            final(self).header == old(self).header,
            final(self).function == old(self).function,
            final(self).data == old(self).data,
            final(self).footer.sysex_message_stop == 0xF7,
            final(self).spec_prefix() == old(self).spec_prefix(),
            r@ == final(self).spec_bytes(),
            r@ == old(self).spec_prefix() + seq![
                spec_checksum(old(self).spec_prefix()),
                0xF7u8,
            ],
    {
        let mut out: Vec<u8> = Vec::new();
        out.push(self.header.sysex_message_start);
        out.push(self.header.sysex_manufacturer[0]);
        out.push(self.header.sysex_manufacturer[1]);
        out.push(self.header.sysex_manufacturer[2]);
        out.push(model_code(self.header.model));
        out.push(function_code(self.function));
        proof {
            assert(out@ =~= self.header.spec_bytes() + seq![
                spec_function_code(self.function),
            ]);
        }
        self.data.append_to(&mut out);
        proof {
            assert(out@ =~= self.spec_prefix());
        }
        let crc = calc_checksum(out.as_slice());
        self.footer.checksum = crc;
        out.push(crc);
        out.push(self.footer.sysex_message_stop);
        proof {
            assert(out@ =~= self.spec_bytes());
        }
        out
    }

    /// Reads the structural layout from the bytes, without judging the
    /// frame constants or the checksum. An unknown model or function
    /// code is told apart from a size or payload-shape mismatch.
    pub fn unpack_from_slice(src: &[u8]) -> (r: Result<Self, FractalProtocolError>)
        ensures
            (r is Ok) == spec_struct_accepts::<TData>(src@),
            r matches Ok(m) ==> {
                &&& m.spec_bytes() == src@
                &&& m.data.wf()
                &&& m.header.sysex_message_start == src@[0]
                &&& m.header.sysex_manufacturer[0] == src@[1]
                &&& m.header.sysex_manufacturer[1] == src@[2]
                &&& m.header.sysex_manufacturer[2] == src@[3]
                &&& Some(m.header.model) == spec_model_from_code(src@[4])
                &&& Some(m.function) == spec_function_from_code(src@[5])
                &&& m.data.spec_bytes() == src@.subrange(6, src@.len() - 2)
                &&& m.footer.checksum == src@[src@.len() - 2]
                &&& m.footer.sysex_message_stop == src@[src@.len() - 1]
            },
            r matches Err(e) ==> {
                &&& (e is UnknownValue <==> src@.len() >= 8 && !spec_codes_known(src@))
                &&& (e is PackingError <==> src@.len() < 8 || (spec_codes_known(src@)
                    && !TData::spec_accepts(src@.subrange(6, src@.len() - 2))))
            },
    {
        if src.len() < 8 {
            return Err(FractalProtocolError::PackingError);
        }
        let model = match model_from_code(src[4]) {
            Some(m) => m,
            None => {
                return Err(
                    FractalProtocolError::UnknownValue {
                        param: String::from_str("FractalModel"),
                        value: crate::text::byte_hex_string(src[4]),
                    },
                );
            },
        };
        let function = match function_from_code(src[5]) {
            Some(f) => f,
            None => {
                return Err(
                    FractalProtocolError::UnknownValue {
                        param: String::from_str("FractalFunction"),
                        value: crate::text::byte_hex_string(src[5]),
                    },
                );
            },
        };
        let data_slice = &src[6..src.len() - 2];
        proof {
            assert(data_slice@ =~= src@.subrange(6, src@.len() - 2));
        }
        let data = match TData::parse_data(data_slice) {
            Some(d) => d,
            None => {
                return Err(FractalProtocolError::PackingError);
            },
        };
        let m = FractalAudioMessage {
            header: FractalHeader {
                sysex_message_start: src[0],
                sysex_manufacturer: [src[1], src[2], src[3]],
                model,
            },
            function,
            data,
            footer: FractalFooter {
                checksum: src[src.len() - 2],
                sysex_message_stop: src[src.len() - 1],
            },
        };
        proof {
            crate::model::lemma_model_code_inverse(src@[4]);
            crate::functions::lemma_function_code_inverse(src@[5]);
            assert(m.spec_bytes() =~= src@);
        }
        Ok(m)
    }

    /// Decodes one frame: structure, then the constant bytes, then the
    /// checksum, each failure with its own error, so that a dispatcher
    /// can tell "wrong candidate" apart from "malformed".
    pub fn unpack_checked(src: &[u8]) -> (r: Result<Self, FractalProtocolError>)
        ensures
            (r is Ok) == spec_frame_accepts::<TData>(src@),
            r matches Ok(m) ==> m.wf() && m.spec_bytes() == src@,
            r matches Err(e) ==> {
                &&& ((e is PackingError || e is UnknownValue) <==> !spec_struct_accepts::<
                    TData,
                >(src@))
                &&& (e is UnknownValue <==> src@.len() >= 8 && !spec_codes_known(src@))
                &&& (e is PackingError <==> src@.len() < 8 || (spec_codes_known(src@)
                    && !TData::spec_accepts(src@.subrange(6, src@.len() - 2))))
                &&& (e is ConstantMismatch <==> spec_struct_accepts::<TData>(src@) && !(
                src@[0] == 0xF0 && src@[1] == 0x00 && src@[2] == 0x01 && src@[3] == 0x74
                    && src@[src@.len() - 1] == 0xF7))
                &&& (e is CrcMismatch <==> spec_struct_accepts::<TData>(src@) && (src@[0] == 0xF0
                    && src@[1] == 0x00 && src@[2] == 0x01 && src@[3] == 0x74 && src@[src@.len()
                    - 1] == 0xF7) && src@[src@.len() - 2] != spec_checksum(
                    src@.take(src@.len() - 2),
                ))
            },
    {
        let m = match Self::unpack_from_slice(src) {
            Ok(m) => m,
            Err(e) => {
                return Err(e);
            },
        };
        if m.header.sysex_message_start != SYSEX_START || m.header.sysex_manufacturer[0] != 0x00
            || m.header.sysex_manufacturer[1] != 0x01 || m.header.sysex_manufacturer[2] != 0x74 {
            return Err(
                FractalProtocolError::ConstantMismatch {
                    constant: String::from_str("sysex_message_start"),
                },
            );
        }
        if m.footer.sysex_message_stop != SYSEX_END {
            return Err(
                FractalProtocolError::ConstantMismatch {
                    constant: String::from_str("sysex_message_stop"),
                },
            );
        }
        let crc_payload = &src[0..src.len() - 2];
        proof {
            assert(crc_payload@ =~= src@.take(src@.len() - 2));
        }
        let crc_calculated = calc_checksum(crc_payload);
        if crc_calculated != m.footer.checksum {
            return Err(
                FractalProtocolError::CrcMismatch {
                    message: m.footer.checksum,
                    calculated: crc_calculated,
                },
            );
        }
        proof {
            assert(m.spec_prefix() =~= src@.take(src@.len() - 2));
        }
        Ok(m)
    }

    /// A well-formed message's bytes are a valid frame for its own shape.
    pub proof fn lemma_wf_frame_accepts(&self)
        requires
            self.wf(),
        ensures
            spec_frame_accepts::<TData>(self.spec_bytes()),
            self.spec_bytes().len() == self.data.spec_bytes().len() + 8,
    {
        let b = self.spec_bytes();
        self.data.lemma_wf_bytes();
        crate::model::lemma_model_code_round_trip(self.header.model);
        crate::functions::lemma_function_code_round_trip(self.function);
        assert(b.subrange(6, b.len() - 2) =~= self.data.spec_bytes());
        assert(b.take(b.len() - 2) =~= self.spec_prefix());
    }

    /// Unique marker positions: a well-formed message's bytes start with
    /// the start marker, end with the end marker, and hold neither marker
    /// anywhere in between.
    pub proof fn lemma_no_interior_markers(&self)
        requires
            self.wf(),
        ensures
            self.spec_bytes().len() >= 8,
            self.spec_bytes()[0] == 0xF0,
            self.spec_bytes().last() == 0xF7,
            forall|i: int|
                0 < i < self.spec_bytes().len() - 1 ==> is_non_marker(
                    #[trigger] self.spec_bytes()[i],
                ),
    {
        let b = self.spec_bytes();
        self.data.lemma_wf_bytes();
        crate::model::lemma_model_code_round_trip(self.header.model);
        crate::functions::lemma_function_code_round_trip(self.function);
        let f = crate::checksum::xor_fold(self.spec_prefix());
        assert((f & 0x7F) < 0x80) by (bit_vector);
        assert forall|i: int| 0 < i < b.len() - 1 implies is_non_marker(#[trigger] b[i]) by {
            let d = self.data.spec_bytes();
            if i < 6 {
            } else if i < 6 + d.len() {
                assert(b[i] == d[i - 6]);
                assert(is_non_marker(d[i - 6]));
            } else {
                assert(b[i] == self.footer.checksum);
            }
        }
    }

    /// The codec round-trip law: two well-formed messages with the same
    /// wire bytes agree in header, function, footer and payload bytes, so
    /// a decode of a packed message reproduces it.
    pub proof fn lemma_codec_round_trip(m1: Self, m2: Self)
        requires
            m1.wf(),
            m2.wf(),
            m1.spec_bytes() == m2.spec_bytes(),
        ensures
            m1.header == m2.header,
            m1.function == m2.function,
            m1.footer == m2.footer,
            m1.data.spec_bytes() == m2.data.spec_bytes(),
    {
        let b1 = m1.spec_bytes();
        let b2 = m2.spec_bytes();
        let d1 = m1.data.spec_bytes();
        let d2 = m2.data.spec_bytes();
        assert(b1[4] == spec_model_code(m1.header.model));
        assert(b2[4] == spec_model_code(m2.header.model));
        crate::model::lemma_model_code_round_trip(m1.header.model);
        crate::model::lemma_model_code_round_trip(m2.header.model);
        assert(b1[5] == spec_function_code(m1.function));
        crate::functions::lemma_function_code_round_trip(m1.function);
        crate::functions::lemma_function_code_round_trip(m2.function);
        assert(b1.len() == 8 + d1.len());
        assert(b2.len() == 8 + d2.len());
        assert(m1.header.sysex_manufacturer =~= m2.header.sysex_manufacturer) by {
            broadcast use vstd::array::group_array_axioms;

            assert(m1.header.sysex_manufacturer[0] == b1[1]);
            assert(m2.header.sysex_manufacturer[0] == b2[1]);
            assert(m1.header.sysex_manufacturer[1] == b1[2]);
            assert(m2.header.sysex_manufacturer[1] == b2[2]);
            assert(m1.header.sysex_manufacturer[2] == b1[3]);
            assert(m2.header.sysex_manufacturer[2] == b2[3]);
        }
        assert(d1 =~= d2) by {
            assert(d1 =~= b1.subrange(6, b1.len() - 2));
            assert(d2 =~= b2.subrange(6, b2.len() - 2));
        }
        assert(m1.footer.checksum == b1[b1.len() - 2]);
        assert(m1.footer.sysex_message_stop == b1[b1.len() - 1]);
    }
}

impl<TData: FractalData> FractalAudioMessageFunction for FractalAudioMessage<TData> {
    fn get_function(&self) -> (r: FractalFunction)
        ensures
            r == self.function,
    {
        self.function
    }
}

impl<TData: FractalData> FractalAudioMessagePacker for FractalAudioMessage<TData> {
    open spec fn pack_wf(&self) -> bool {
        self.header.wf() && self.data.wf() && self.footer.sysex_message_stop == 0xF7
    }

    open spec fn spec_packed(&self) -> Seq<u8> {
        self.spec_prefix() + seq![spec_checksum(self.spec_prefix()), 0xF7u8]
    }

    fn pack(&mut self) -> (r: Result<Vec<u8>, FractalProtocolError>)
        ensures
            final(self).wf(),
            final(self).header == old(self).header,
            final(self).function == old(self).function,
            final(self).data == old(self).data,
            final(self).footer.sysex_message_stop == 0xF7,
            final(self).footer.checksum == spec_checksum(old(self).spec_prefix()),
            r matches Ok(v) && v@ == final(self).spec_bytes(),
    {
        let v = self.pack_bytes();
        Ok(v)
    }
}

impl<TData: FractalData> FractalAudioMessageUnpacker for FractalAudioMessage<TData> {
    fn unpack_from_slice_with_crc_check(src: &[u8]) -> (r: Result<
        Self,
        FractalProtocolError,
    >)
        ensures
            (r is Ok) == spec_frame_accepts::<TData>(src@),
            r matches Ok(m) ==> m.wf() && m.spec_bytes() == src@,
            r matches Err(e) ==> {
                &&& ((e is PackingError || e is UnknownValue) <==> !spec_struct_accepts::<
                    TData,
                >(src@))
                &&& (e is UnknownValue <==> src@.len() >= 8 && !spec_codes_known(src@))
                &&& (e is PackingError <==> src@.len() < 8 || (spec_codes_known(src@)
                    && !TData::spec_accepts(src@.subrange(6, src@.len() - 2))))
                &&& (e is ConstantMismatch <==> spec_struct_accepts::<TData>(src@) && !(
                src@[0] == 0xF0 && src@[1] == 0x00 && src@[2] == 0x01 && src@[3] == 0x74
                    && src@[src@.len() - 1] == 0xF7))
                &&& (e is CrcMismatch <==> spec_struct_accepts::<TData>(src@) && (src@[0] == 0xF0
                    && src@[1] == 0x00 && src@[2] == 0x01 && src@[3] == 0x74 && src@[src@.len()
                    - 1] == 0xF7) && src@[src@.len() - 2] != spec_checksum(
                    src@.take(src@.len() - 2),
                ))
            },
    {
        Self::unpack_checked(src)
    }
}

} // verus!
