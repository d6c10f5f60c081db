//! The fixed sentinel bytes of the wire format: frame markers and the
//! three-byte manufacturer id that every frame carries after the start
//! marker.

use vstd::prelude::*;

verus! {

pub const SYSEX_START: u8 = 0xF0;
pub const SYSEX_END: u8 = 0xF7;
pub const SYSEX_MANUFACTURER_BYTE1: u8 = 0x00;
pub const SYSEX_MANUFACTURER_BYTE2: u8 = 0x01;
pub const SYSEX_MANUFACTURER_BYTE3: u8 = 0x74;

/// The four bytes every frame starts with: the start marker followed by
/// the manufacturer id.
pub open spec fn spec_sysex_header() -> Seq<u8> {
    seq![0xF0u8, 0x00u8, 0x01u8, 0x74u8]
}

/// Whether the four-byte header sequence stands at offset `i` of `c`.
pub open spec fn is_header_at(c: Seq<u8>, i: int) -> bool {
    &&& 0 <= i
    &&& i + 4 <= c.len()
    &&& c[i] == 0xF0
    &&& c[i + 1] == 0x00
    &&& c[i + 2] == 0x01
    &&& c[i + 3] == 0x74
}

/// A byte that can never be mistaken for a frame marker.
pub open spec fn is_non_marker(b: u8) -> bool {
    b != 0xF0 && b != 0xF7
}

} // verus!
