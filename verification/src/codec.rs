//! The wire codec: every payload shape packs to and parses from a byte
//! slice under one uniform contract, and the generic message envelope
//! wraps a payload between the frame header and the checksummed footer.
//!
//! Payload bytes follow the 7-bit convention of the protocol, so no
//! payload byte can ever be mistaken for a frame marker; the block-status
//! record is the one shape that uses the top bit of its flag byte, and
//! even there the marker values cannot occur.

use vstd::prelude::*;
use vstd::slice::slice_to_vec;
use vstd::string::StringSliceAdditionalSpecFns;
use crate::consts::is_non_marker;

verus! {

/// Whether every byte of a sequence stays below the 7-bit limit.
pub open spec fn all_seven_bit(s: Seq<u8>) -> bool {
    forall|i: int| 0 <= i < s.len() ==> s[i] < 0x80
}

/// A payload shape of the wire format: a value that packs to a byte
/// sequence and parses back from exactly the byte sequences that
/// `spec_accepts` admits.
pub trait FractalData: Sized {
    /// Well-formedness of the in-memory value.
    spec fn wf(&self) -> bool;

    /// The exact bytes the value packs to.
    spec fn spec_bytes(&self) -> Seq<u8>;

    /// The byte sequences this shape parses.
    spec fn spec_accepts(bytes: Seq<u8>) -> bool;

    /// A well-formed value's bytes hold no frame marker, and parse back.
    proof fn lemma_wf_bytes(&self)
        requires
            self.wf(),
        ensures
            forall|i: int|
                0 <= i < self.spec_bytes().len() ==> is_non_marker(#[trigger] self.spec_bytes()[i]),
            Self::spec_accepts(self.spec_bytes()),
    ;

    /// Packs the value, appending its bytes.
    fn append_to(&self, out: &mut Vec<u8>)
        requires
            self.wf(),
        ensures
            final(out)@ == old(out)@ + self.spec_bytes(),
    ;

    /// Parses a byte slice: succeeds exactly on accepted sequences, and
    /// every parsed value is well formed and packs back to its input.
    fn parse_data(bytes: &[u8]) -> (r: Option<Self>)
        ensures
            r matches Some(d) ==> d.wf() && d.spec_bytes() == bytes@,
            (r is Some) == Self::spec_accepts(bytes@),
    ;
}

/// A payload shape whose byte width is fixed, so that shapes can be
/// concatenated and split without length prefixes.
pub trait FractalDataFixed: FractalData {
    /// The fixed byte width.
    spec fn spec_size() -> nat;

    /// The fixed byte width, as a runtime value.
    fn data_size() -> (r: usize)
        ensures
            r == Self::spec_size(),
    ;

    /// Well-formed values pack to exactly the fixed width, and only
    /// sequences of that width are accepted.
    proof fn lemma_size_facts()
        ensures
            forall|d: Self| #[trigger] d.wf() ==> d.spec_bytes().len() == Self::spec_size(),
            forall|b: Seq<u8>| #[trigger] Self::spec_accepts(b) ==> b.len() == Self::spec_size(),
    ;
}

/// The empty payload.
#[derive(Debug, Clone, Copy, PartialEq, Eq, Structural)]
pub struct DataVoid;

impl FractalData for DataVoid {
    open spec fn wf(&self) -> bool {
        true
    }

    open spec fn spec_bytes(&self) -> Seq<u8> {
        Seq::empty()
    }

    open spec fn spec_accepts(bytes: Seq<u8>) -> bool {
        bytes.len() == 0
    }

    proof fn lemma_wf_bytes(&self) {
    }

    fn append_to(&self, out: &mut Vec<u8>) {
        proof {
            assert(out@ =~= old(out)@ + Seq::<u8>::empty());
        }
    }

    fn parse_data(bytes: &[u8]) -> (r: Option<Self>) {
        if bytes.len() == 0 {
            Some(DataVoid)
        } else {
            None
        }
    }
}

impl FractalDataFixed for DataVoid {
    open spec fn spec_size() -> nat {
        0
    }

    fn data_size() -> (r: usize) {
        0
    }

    proof fn lemma_size_facts() {
    }
}

/// One 7-bit value in one byte, top bit reserved as zero.
#[derive(Debug, Clone, Copy, PartialEq, Eq, Structural)]
pub struct FractalU7 {
    pub value: u8,
}

impl FractalU7 {
    /// The `0x7F` sentinel that queries stand for "current/any".
    pub fn new_all() -> (r: Self)
        ensures
            r.value == 0x7F,
            r.wf(),
    {
        FractalU7 { value: 0x7F }
    }

    /// Wraps a byte, masking it to the 7-bit range.
    pub fn from_byte(n: u8) -> (r: Self)
        ensures
            r.value == n % 0x80,
            r.wf(),
            n < 0x80 ==> r.value == n,
    {
        FractalU7 { value: n % 0x80 }
    }
}

impl FractalData for FractalU7 {
    open spec fn wf(&self) -> bool {
        self.value < 0x80
    }

    open spec fn spec_bytes(&self) -> Seq<u8> {
        seq![self.value]
    }

    open spec fn spec_accepts(bytes: Seq<u8>) -> bool {
        bytes.len() == 1 && bytes[0] < 0x80
    }

    proof fn lemma_wf_bytes(&self) {
        assert(self.spec_bytes()[0] == self.value);
    }

    fn append_to(&self, out: &mut Vec<u8>) {
        out.push(self.value);
        proof {
            assert(out@ =~= old(out)@ + self.spec_bytes());
        }
    }

    fn parse_data(bytes: &[u8]) -> (r: Option<Self>) {
        if bytes.len() == 1 && bytes[0] < 0x80 {
            let d = FractalU7 { value: bytes[0] };
            proof {
                assert(d.spec_bytes() =~= bytes@);
            }
            Some(d)
        } else {
            None
        }
    }
}

impl FractalDataFixed for FractalU7 {
    open spec fn spec_size() -> nat {
        1
    }

    fn data_size() -> (r: usize) {
        1
    }

    proof fn lemma_size_facts() {
    }
}

/// One 14-bit value as two 7-bit bytes, low byte first.
#[derive(Debug, Clone, Copy, PartialEq, Eq, Structural)]
pub struct FractalU14 {
    pub lsb: u8,
    pub msb: u8,
}

impl FractalU14 {
    /// The value the two 7-bit bytes stand for.
    pub open spec fn spec_value(&self) -> u16 {
        (self.msb * 0x80 + self.lsb) as u16
    }

    /// The `0x7F 0x7F` sentinel that queries stand for "current/any".
    pub fn new_all() -> (r: Self)
        ensures
            r.lsb == 0x7F,
            r.msb == 0x7F,
            r.wf(),
    {
        FractalU14 { lsb: 0x7F, msb: 0x7F }
    }

    /// Whether this is the "current/any" sentinel.
    pub fn is_all(&self) -> (r: bool)
        ensures
            r == (self.lsb == 0x7F && self.msb == 0x7F),
    {
        self.lsb == 0x7F && self.msb == 0x7F
    }

    /// Splits a value into its two 7-bit halves, reducing it modulo the
    /// 14-bit range.
    pub fn from_u16(n: u16) -> (r: Self)
        ensures
            r.wf(),
            r.spec_value() == n % 0x4000,
            n < 0x4000 ==> r.spec_value() == n,
    {
        let r = FractalU14 { lsb: (n % 0x80) as u8, msb: ((n / 0x80) % 0x80) as u8 };
        proof {
            vstd::arithmetic::div_mod::lemma_breakdown(n as int, 0x80, 0x80);
        }
        r
    }

    /// Reassembles the 14-bit value.
    pub fn as_u16(&self) -> (r: u16)
        requires
            self.wf(),
        ensures
            r == self.spec_value(),
            r < 0x4000,
    {
        (self.msb as u16) * 0x80 + (self.lsb as u16)
    }
}

impl FractalData for FractalU14 {
    open spec fn wf(&self) -> bool {
        self.lsb < 0x80 && self.msb < 0x80
    }

    open spec fn spec_bytes(&self) -> Seq<u8> {
        seq![self.lsb, self.msb]
    }

    open spec fn spec_accepts(bytes: Seq<u8>) -> bool {
        bytes.len() == 2 && bytes[0] < 0x80 && bytes[1] < 0x80
    }

    proof fn lemma_wf_bytes(&self) {
        assert(self.spec_bytes()[0] == self.lsb);
        assert(self.spec_bytes()[1] == self.msb);
    }

    fn append_to(&self, out: &mut Vec<u8>) {
        out.push(self.lsb);
        out.push(self.msb);
        proof {
            assert(out@ =~= old(out)@ + self.spec_bytes());
        }
    }

    fn parse_data(bytes: &[u8]) -> (r: Option<Self>) {
        if bytes.len() == 2 && bytes[0] < 0x80 && bytes[1] < 0x80 {
            let d = FractalU14 { lsb: bytes[0], msb: bytes[1] };
            proof {
                assert(d.spec_bytes() =~= bytes@);
            }
            Some(d)
        } else {
            None
        }
    }
}

impl FractalDataFixed for FractalU14 {
    open spec fn spec_size() -> nat {
        2
    }

    fn data_size() -> (r: usize) {
        2
    }

    proof fn lemma_size_facts() {
    }
}


/// A fixed-width run of raw 7-bit bytes.
#[derive(Debug, Clone, PartialEq)]
pub struct DataBytes<const N: usize> {
    pub data: Vec<u8>,
}

impl<const N: usize> DataBytes<N> {
    /// Wraps a byte vector of the right width.
    pub fn new(data: Vec<u8>) -> (r: Self)
        requires
            data@.len() == N,
            all_seven_bit(data@),
        ensures
            r.wf(),
            r.data@ == data@,
    {
        DataBytes { data }
    }
}

impl<const N: usize> FractalData for DataBytes<N> {
    open spec fn wf(&self) -> bool {
        self.data@.len() == N && all_seven_bit(self.data@)
    }

    open spec fn spec_bytes(&self) -> Seq<u8> {
        self.data@
    }

    open spec fn spec_accepts(bytes: Seq<u8>) -> bool {
        bytes.len() == N && all_seven_bit(bytes)
    }

    proof fn lemma_wf_bytes(&self) {
    }

    fn append_to(&self, out: &mut Vec<u8>) {
        let mut i: usize = 0;
        while i < self.data.len()
            invariant
                i <= self.data@.len(),
                out@ == old(out)@ + self.data@.take(i as int),
            decreases self.data@.len() - i,
        {
            out.push(self.data[i]);
            proof {
                assert(old(out)@ + self.data@.take(i + 1) =~= (old(out)@ + self.data@.take(
                    i as int,
                )).push(self.data@[i as int]));
            }
            i = i + 1;
        }
        proof {
            assert(self.data@.take(self.data@.len() as int) =~= self.data@);
        }
    }

    fn parse_data(bytes: &[u8]) -> (r: Option<Self>) {
        if bytes.len() != N {
            return None;
        }
        let mut i: usize = 0;
        while i < bytes.len()
            invariant
                i <= bytes@.len(),
                forall|j: int| 0 <= j < i ==> bytes@[j] < 0x80,
            decreases bytes@.len() - i,
        {
            if bytes[i] >= 0x80 {
                return None;
            }
            i = i + 1;
        }
        let d = DataBytes { data: slice_to_vec(bytes) };
        Some(d)
    }
}

impl<const N: usize> FractalDataFixed for DataBytes<N> {
    open spec fn spec_size() -> nat {
        N as nat
    }

    fn data_size() -> (r: usize) {
        N
    }

    proof fn lemma_size_facts() {
    }
}

/// A fixed 32-byte ASCII name field: packed names are truncated or
/// NUL-padded to the width, and decode strips the padding again.
#[derive(Debug, Clone, PartialEq)]
pub struct FractalString32 {
    pub data: Vec<u8>,
}

impl FractalString32 {
    /// Packs a string into the fixed field: its bytes truncated to the
    /// width and padded with NUL. A string with a non-ASCII or NUL byte
    /// among the kept bytes cannot be represented and yields `None`.
    pub fn from_string(s: &str) -> (r: Option<Self>)
        ensures
            r matches Some(f) ==> {
                &&& f.wf()
                &&& f.data@.len() == 32
                &&& forall|i: int|
                    0 <= i < 32 ==> f.data@[i] == (if i < s.spec_bytes().len() {
                        s.spec_bytes()[i]
                    } else {
                        0u8
                    })
            },
            (r is Some) == (forall|i: int|
                0 <= i < s.spec_bytes().len() && i < 32 ==> 0 < #[trigger] s.spec_bytes()[i]
                    < 0x80),
    {
        let raw = s.as_bytes();
        let mut data: Vec<u8> = Vec::new();
        let mut i: usize = 0;
        while i < 32
            invariant
                i <= 32,
                raw@ == s.spec_bytes(),
                data@.len() == i,
                forall|j: int|
                    0 <= j < i ==> data@[j] == (if j < raw@.len() {
                        raw@[j]
                    } else {
                        0u8
                    }),
                forall|j: int| 0 <= j < i && j < raw@.len() ==> 0 < #[trigger] raw@[j] < 0x80,
            decreases 32 - i,
        {
            if i < raw.len() {
                let b = raw[i];
                if b == 0 || b >= 0x80 {
                    proof {
                        assert(s.spec_bytes()[i as int] == b);
                        assert(!(0 < s.spec_bytes()[i as int] < 0x80));
                    }
                    return None;
                }
                data.push(b);
            } else {
                data.push(0);
            }
            i = i + 1;
        }
        Some(FractalString32 { data })
    }

    /// Reads the field back as a display name: the bytes up to the first
    /// NUL or non-ASCII byte, trailing whitespace stripped.
    pub fn try_as_string(&self) -> (r: Option<String>)
        ensures
            r matches Some(s) && s@ == crate::text::spec_name_ascii(self.data@),
    {
        Some(crate::text::decode_name_ascii(self.data.as_slice()))
    }
}

impl FractalData for FractalString32 {
    open spec fn wf(&self) -> bool {
        self.data@.len() == 32 && all_seven_bit(self.data@)
    }

    open spec fn spec_bytes(&self) -> Seq<u8> {
        self.data@
    }

    open spec fn spec_accepts(bytes: Seq<u8>) -> bool {
        bytes.len() == 32 && all_seven_bit(bytes)
    }

    proof fn lemma_wf_bytes(&self) {
    }

    fn append_to(&self, out: &mut Vec<u8>) {
        let mut i: usize = 0;
        while i < self.data.len()
            invariant
                i <= self.data@.len(),
                out@ == old(out)@ + self.data@.take(i as int),
            decreases self.data@.len() - i,
        {
            out.push(self.data[i]);
            proof {
                assert(old(out)@ + self.data@.take(i + 1) =~= (old(out)@ + self.data@.take(
                    i as int,
                )).push(self.data@[i as int]));
            }
            i = i + 1;
        }
        proof {
            assert(self.data@.take(self.data@.len() as int) =~= self.data@);
        }
    }

    fn parse_data(bytes: &[u8]) -> (r: Option<Self>) {
        if bytes.len() != 32 {
            return None;
        }
        let mut i: usize = 0;
        while i < bytes.len()
            invariant
                i <= bytes@.len(),
                forall|j: int| 0 <= j < i ==> bytes@[j] < 0x80,
            decreases bytes@.len() - i,
        {
            if bytes[i] >= 0x80 {
                return None;
            }
            i = i + 1;
        }
        Some(FractalString32 { data: slice_to_vec(bytes) })
    }
}

impl FractalDataFixed for FractalString32 {
    open spec fn spec_size() -> nat {
        32
    }

    fn data_size() -> (r: usize) {
        32
    }

    proof fn lemma_size_facts() {
    }
}

/// Two payload shapes packed back to back; the first must have a fixed
/// width so that parsing knows where to split.
#[derive(Debug, Clone, PartialEq)]
pub struct Data<T1, T2>(pub T1, pub T2);

impl<T1: FractalDataFixed, T2: FractalData> FractalData for Data<T1, T2> {
    open spec fn wf(&self) -> bool {
        self.0.wf() && self.1.wf()
    }

    open spec fn spec_bytes(&self) -> Seq<u8> {
        self.0.spec_bytes() + self.1.spec_bytes()
    }

    open spec fn spec_accepts(bytes: Seq<u8>) -> bool {
        &&& bytes.len() >= T1::spec_size()
        &&& T1::spec_accepts(bytes.take(T1::spec_size() as int))
        &&& T2::spec_accepts(bytes.skip(T1::spec_size() as int))
    }

    proof fn lemma_wf_bytes(&self) {
        self.0.lemma_wf_bytes();
        self.1.lemma_wf_bytes();
        T1::lemma_size_facts();
        assert(self.spec_bytes().take(T1::spec_size() as int) =~= self.0.spec_bytes());
        assert(self.spec_bytes().skip(T1::spec_size() as int) =~= self.1.spec_bytes());
        assert forall|i: int| 0 <= i < self.spec_bytes().len() implies is_non_marker(
            #[trigger] self.spec_bytes()[i],
        ) by {
            if i < self.0.spec_bytes().len() {
                assert(self.spec_bytes()[i] == self.0.spec_bytes()[i]);
            } else {
                assert(self.spec_bytes()[i] == self.1.spec_bytes()[
                    i - self.0.spec_bytes().len()
                ]);
            }
        }
    }

    fn append_to(&self, out: &mut Vec<u8>) {
        self.0.append_to(out);
        self.1.append_to(out);
        proof {
            assert(old(out)@ + self.0.spec_bytes() + self.1.spec_bytes() =~= old(out)@
                + self.spec_bytes());
        }
    }

    fn parse_data(bytes: &[u8]) -> (r: Option<Self>) {
        let n = T1::data_size();
        if bytes.len() < n {
            return None;
        }
        let (a, b) = bytes.split_at(n);
        proof {
            assert(a@ =~= bytes@.take(T1::spec_size() as int));
            assert(b@ =~= bytes@.skip(T1::spec_size() as int));
        }
        match (T1::parse_data(a), T2::parse_data(b)) {
            (Some(x), Some(y)) => {
                let d = Data(x, y);
                proof {
                    assert(d.spec_bytes() =~= bytes@);
                }
                Some(d)
            },
            _ => None,
        }
    }
}


/// Per-effect status record of a status dump: a 14-bit effect id in two
/// bytes, then one flag byte holding the supported-channel count, the
/// active channel and the bypass bit, top bit reserved as zero.
#[derive(Debug, Clone, Copy, PartialEq, Eq, Structural)]
pub struct EffectStatus {
    pub effect_id: FractalU14,
    pub supported_channels: u8,
    pub channel: u8,
    pub is_bypassed: bool,
}

impl EffectStatus {
    /// The packed flag byte.
    pub open spec fn spec_flags(&self) -> u8 {
        (self.supported_channels * 16 + self.channel * 2 + (if self.is_bypassed {
            1int
        } else {
            0int
        })) as u8
    }
}

impl FractalData for EffectStatus {
    open spec fn wf(&self) -> bool {
        self.effect_id.wf() && self.supported_channels < 8 && self.channel < 8
    }

    open spec fn spec_bytes(&self) -> Seq<u8> {
        seq![self.effect_id.lsb, self.effect_id.msb, self.spec_flags()]
    }

    open spec fn spec_accepts(bytes: Seq<u8>) -> bool {
        bytes.len() == 3 && bytes[0] < 0x80 && bytes[1] < 0x80 && bytes[2] < 0x80
    }

    proof fn lemma_wf_bytes(&self) {
        assert(self.spec_flags() < 0x80);
    }

    fn append_to(&self, out: &mut Vec<u8>) {
        out.push(self.effect_id.lsb);
        out.push(self.effect_id.msb);
        let flags: u8 = self.supported_channels * 16 + self.channel * 2 + (
        if self.is_bypassed {
            1
        } else {
            0
        });
        out.push(flags);
        proof {
            assert(out@ =~= old(out)@ + self.spec_bytes());
        }
    }

    fn parse_data(bytes: &[u8]) -> (r: Option<Self>) {
        if bytes.len() == 3 && bytes[0] < 0x80 && bytes[1] < 0x80 && bytes[2] < 0x80 {
            let b2 = bytes[2];
            let d = EffectStatus {
                effect_id: FractalU14 { lsb: bytes[0], msb: bytes[1] },
                supported_channels: b2 / 16,
                channel: (b2 / 2) % 8,
                is_bypassed: b2 % 2 == 1,
            };
            proof {
                assert(b2 < 0x80 ==> (b2 / 16) * 16 + ((b2 / 2) % 8) * 2 + (if b2 % 2 == 1 {
                    1int
                } else {
                    0int
                }) == b2) by (bit_vector);
                assert(d.spec_flags() == b2);
                assert(d.spec_bytes() =~= bytes@);
                assert(b2 < 0x80 ==> b2 / 16 < 8 && (b2 / 2) % 8 < 8) by (bit_vector);
            }
            Some(d)
        } else {
            None
        }
    }
}

impl FractalDataFixed for EffectStatus {
    open spec fn spec_size() -> nat {
        3
    }

    fn data_size() -> (r: usize) {
        3
    }

    proof fn lemma_size_facts() {
    }
}

/// Per-block record of a preset's block list: engage and X/Y flags in
/// the two top bits of the first byte, then the two controller numbers
/// and the effect id, and one reserved zero byte.
#[derive(Debug, Clone, Copy, PartialEq, Eq, Structural)]
pub struct PresetBlockStatus {
    pub is_engaged: bool,
    pub x: bool,
    pub bypass_cc: u8,
    pub xy_cc: u8,
    pub effect_id: u8,
}

impl PresetBlockStatus {
    /// The packed flag byte; the one place the wire format uses the top
    /// bit, and still never a marker value.
    pub open spec fn spec_flags(&self) -> u8 {
        ((if self.is_engaged {
            128int
        } else {
            0int
        }) + (if self.x {
            64int
        } else {
            0int
        })) as u8
    }
}

impl FractalData for PresetBlockStatus {
    open spec fn wf(&self) -> bool {
        self.bypass_cc < 0x80 && self.xy_cc < 0x80 && self.effect_id < 0x80
    }

    open spec fn spec_bytes(&self) -> Seq<u8> {
        seq![self.spec_flags(), self.bypass_cc, self.xy_cc, self.effect_id, 0u8]
    }

    open spec fn spec_accepts(bytes: Seq<u8>) -> bool {
        &&& bytes.len() == 5
        &&& (bytes[0] == 0 || bytes[0] == 64 || bytes[0] == 128 || bytes[0] == 192)
        &&& bytes[1] < 0x80
        &&& bytes[2] < 0x80
        &&& bytes[3] < 0x80
        &&& bytes[4] == 0
    }

    proof fn lemma_wf_bytes(&self) {
    }

    fn append_to(&self, out: &mut Vec<u8>) {
        let flags: u8 = (if self.is_engaged {
            128
        } else {
            0
        }) + (if self.x {
            64
        } else {
            0
        });
        out.push(flags);
        out.push(self.bypass_cc);
        out.push(self.xy_cc);
        out.push(self.effect_id);
        out.push(0);
        proof {
            assert(out@ =~= old(out)@ + self.spec_bytes());
        }
    }

    fn parse_data(bytes: &[u8]) -> (r: Option<Self>) {
        if bytes.len() == 5 && (bytes[0] == 0 || bytes[0] == 64 || bytes[0] == 128 || bytes[0]
            == 192) && bytes[1] < 0x80 && bytes[2] < 0x80 && bytes[3] < 0x80 && bytes[4] == 0 {
            let b0 = bytes[0];
            let d = PresetBlockStatus {
                is_engaged: b0 == 128 || b0 == 192,
                x: b0 == 64 || b0 == 192,
                bypass_cc: bytes[1],
                xy_cc: bytes[2],
                effect_id: bytes[3],
            };
            proof {
                assert(d.spec_bytes() =~= bytes@);
            }
            Some(d)
        } else {
            None
        }
    }
}

impl FractalDataFixed for PresetBlockStatus {
    open spec fn spec_size() -> nat {
        5
    }

    fn data_size() -> (r: usize) {
        5
    }

    proof fn lemma_size_facts() {
    }
}

/// The bytes a run of records packs to: each record's bytes in order.
pub open spec fn records_bytes<T: FractalData>(s: Seq<T>) -> Seq<u8>
    decreases s.len(),
{
    if s.len() == 0 {
        Seq::empty()
    } else {
        s[0].spec_bytes() + records_bytes(s.drop_first())
    }
}

/// Whether a byte sequence splits into accepted fixed-size records.
pub open spec fn records_accepts<T: FractalDataFixed>(b: Seq<u8>) -> bool
    decreases b.len(),
{
    if b.len() == 0 {
        true
    } else if T::spec_size() == 0 || b.len() < T::spec_size() {
        false
    } else {
        T::spec_accepts(b.take(T::spec_size() as int)) && records_accepts::<T>(
            b.skip(T::spec_size() as int),
        )
    }
}

/// Appending one record appends its bytes.
pub proof fn lemma_records_bytes_snoc<T: FractalData>(s: Seq<T>, x: T)
    ensures
        records_bytes(s.push(x)) == records_bytes(s) + x.spec_bytes(),
    decreases s.len(),
{
    if s.len() == 0 {
        assert(s.push(x)[0] == x);
        assert(s.push(x).drop_first() =~= Seq::<T>::empty());
        assert(records_bytes(Seq::<T>::empty()) == Seq::<u8>::empty());
        assert(records_bytes(s.push(x)) =~= records_bytes(s) + x.spec_bytes());
    } else {
        assert(s.push(x).drop_first() =~= s.drop_first().push(x));
        assert(s.push(x)[0] == s[0]);
        lemma_records_bytes_snoc(s.drop_first(), x);
        assert(records_bytes(s.push(x)) == s[0].spec_bytes() + records_bytes(
            s.push(x).drop_first(),
        ));
        assert(s[0].spec_bytes() + (records_bytes(s.drop_first()) + x.spec_bytes()) =~= (
        s[0].spec_bytes() + records_bytes(s.drop_first())) + x.spec_bytes());
    }
}

/// The bytes of a run of well-formed records: their total width, that
/// no marker occurs in them, and that they parse back.
pub proof fn lemma_records_bytes_props<T: FractalDataFixed>(s: Seq<T>)
    requires
        forall|i: int| 0 <= i < s.len() ==> (#[trigger] s[i]).wf(),
    ensures
        records_bytes(s).len() == s.len() * T::spec_size(),
        forall|i: int|
            0 <= i < records_bytes(s).len() ==> is_non_marker(#[trigger] records_bytes(s)[i]),
        records_accepts::<T>(records_bytes(s)),
    decreases s.len(),
{
    T::lemma_size_facts();
    if s.len() == 0 {
    } else {
        let sz = T::spec_size();
        assert(s[0].wf());
        s[0].lemma_wf_bytes();
        assert(forall|i: int| 0 <= i < s.drop_first().len() ==> (#[trigger] s.drop_first()[i]).wf());
        lemma_records_bytes_props::<T>(s.drop_first());
        let rest = records_bytes(s.drop_first());
        let whole = records_bytes(s);
        assert(whole == s[0].spec_bytes() + rest);
        assert(s.len() * sz == sz + (s.len() - 1) * sz) by (nonlinear_arith);
        assert forall|i: int| 0 <= i < whole.len() implies is_non_marker(#[trigger] whole[i]) by {
            if i < sz {
                assert(whole[i] == s[0].spec_bytes()[i]);
            } else {
                assert(whole[i] == rest[i - sz]);
            }
        }
        if sz > 0 {
            assert(whole.take(sz as int) =~= s[0].spec_bytes());
            assert(whole.skip(sz as int) =~= rest);
        } else {
            assert(whole =~= rest);
        }
    }
}

/// A homogeneous run of fixed-size records filling the payload to the
/// frame's footer.
#[derive(Debug, Clone, PartialEq)]
pub struct DataRecords<T>(pub Vec<T>);

impl<T: FractalDataFixed + Copy> FractalData for DataRecords<T> {
    open spec fn wf(&self) -> bool {
        forall|i: int| 0 <= i < self.0@.len() ==> (#[trigger] self.0@[i]).wf()
    }

    open spec fn spec_bytes(&self) -> Seq<u8> {
        records_bytes(self.0@)
    }

    open spec fn spec_accepts(bytes: Seq<u8>) -> bool {
        records_accepts::<T>(bytes)
    }

    proof fn lemma_wf_bytes(&self) {
        lemma_records_bytes_props::<T>(self.0@);
    }

    fn append_to(&self, out: &mut Vec<u8>) {
        let mut i: usize = 0;
        proof {
            assert(self.0@.take(0) =~= Seq::<T>::empty());
            assert(out@ =~= out@ + records_bytes(self.0@.take(0)));
        }
        while i < self.0.len()
            invariant
                i <= self.0@.len(),
                forall|j: int| 0 <= j < self.0@.len() ==> (#[trigger] self.0@[j]).wf(),
                out@ == old(out)@ + records_bytes(self.0@.take(i as int)),
            decreases self.0@.len() - i,
        {
            let x = self.0[i];
            proof {
                assert(self.0@.take(i + 1) =~= self.0@.take(i as int).push(self.0@[i as int]));
                lemma_records_bytes_snoc(self.0@.take(i as int), self.0@[i as int]);
            }
            x.append_to(out);
            i = i + 1;
        }
        proof {
            assert(self.0@.take(self.0@.len() as int) =~= self.0@);
        }
    }

    fn parse_data(bytes: &[u8]) -> (r: Option<Self>) {
        let sz = T::data_size();
        if sz == 0 {
            if bytes.len() == 0 {
                let d: DataRecords<T> = DataRecords(Vec::new());
                proof {
                    assert(d.spec_bytes() =~= bytes@);
                }
                return Some(d);
            } else {
                return None;
            }
        }
        let mut v: Vec<T> = Vec::new();
        let mut i: usize = 0;
        proof {
            assert(bytes@.skip(0) =~= bytes@);
            assert(bytes@.take(0) =~= Seq::<u8>::empty());
        }
        while i < bytes.len()
            invariant
                sz == T::spec_size(),
                sz > 0,
                i <= bytes@.len(),
                records_bytes(v@) == bytes@.take(i as int),
                forall|j: int| 0 <= j < v@.len() ==> (#[trigger] v@[j]).wf(),
                records_accepts::<T>(bytes@) == records_accepts::<T>(bytes@.skip(i as int)),
            decreases bytes@.len() - i,
        {
            if bytes.len() - i < sz {
                return None;
            }
            let chunk = &bytes[i..i + sz];
            proof {
                assert(chunk@ =~= bytes@.skip(i as int).take(sz as int));
            }
            match T::parse_data(chunk) {
                Some(x) => {
                    proof {
                        assert(bytes@.skip(i as int).skip(sz as int) =~= bytes@.skip(i + sz));
                        lemma_records_bytes_snoc(v@, x);
                        assert(bytes@.take(i as int) + chunk@ =~= bytes@.take((i + sz) as int));
                    }
                    v.push(x);
                    i = i + sz;
                },
                None => {
                    return None;
                },
            }
        }
        proof {
            assert(bytes@.skip(bytes@.len() as int) =~= Seq::<u8>::empty());
            assert(bytes@.take(bytes@.len() as int) =~= bytes@);
        }
        Some(DataRecords(v))
    }
}

} // verus!
