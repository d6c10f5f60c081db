//! Decoding of the fixed-width name fields: take the prefix up to the
//! first NUL (and, for strict ASCII fields, the first top-bit byte),
//! strip trailing whitespace, and read the remaining bytes as characters.

use vstd::prelude::*;

verus! {

/// Bytes that count as trailing whitespace when a name is trimmed: the
/// whitespace characters a byte can stand for as a character.
pub open spec fn is_name_trim_byte(b: u8) -> bool {
    b == 0x20 || (0x09 <= b && b <= 0x0D) || b == 0x85 || b == 0xA0
}

/// The prefix of a name field up to the first NUL byte.
pub open spec fn spec_take_nonzero(s: Seq<u8>) -> Seq<u8>
    decreases s.len(),
{
    if s.len() == 0 || s[0] == 0 {
        Seq::empty()
    } else {
        seq![s[0]] + spec_take_nonzero(s.drop_first())
    }
}

/// The prefix of a name field up to the first NUL or non-ASCII byte.
pub open spec fn spec_take_ascii(s: Seq<u8>) -> Seq<u8>
    decreases s.len(),
{
    if s.len() == 0 || s[0] == 0 || s[0] >= 0x80 {
        Seq::empty()
    } else {
        seq![s[0]] + spec_take_ascii(s.drop_first())
    }
}

/// A name with its trailing whitespace stripped.
pub open spec fn spec_trim_trailing(s: Seq<u8>) -> Seq<u8>
    decreases s.len(),
{
    if s.len() > 0 && is_name_trim_byte(s.last()) {
        spec_trim_trailing(s.drop_last())
    } else {
        s
    }
}

/// The characters a byte sequence stands for, one character per byte.
pub open spec fn spec_chars_of_bytes(s: Seq<u8>) -> Seq<char> {
    s.map_values(|b: u8| b as char)
}

/// The display name a raw name field decodes to: prefix up to the first
/// NUL, trailing whitespace stripped, bytes read as characters.
pub open spec fn spec_name_nonzero(s: Seq<u8>) -> Seq<char> {
    spec_chars_of_bytes(spec_trim_trailing(spec_take_nonzero(s)))
}

/// As `spec_name_nonzero`, but stopping at the first non-ASCII byte too.
pub open spec fn spec_name_ascii(s: Seq<u8>) -> Seq<char> {
    spec_chars_of_bytes(spec_trim_trailing(spec_take_ascii(s)))
}

/// The character a 4-bit value prints as in upper-case hexadecimal.
pub open spec fn spec_hex_digit(n: u8) -> char {
    if n < 10 {
        (0x30 + n) as char
    } else {
        (0x37 + n) as char
    }
}

/// Renders one byte as two upper-case hexadecimal characters, for error
/// reports that name the offending wire byte.
pub fn byte_hex_string(b: u8) -> (r: String)
    ensures
        r@ == seq![spec_hex_digit(b / 16), spec_hex_digit(b % 16)],
{
    let mut s = String::new();
    let hi = b / 16;
    let lo = b % 16;
    let c1 = if hi < 10 {
        (0x30 + hi) as char
    } else {
        (0x37 + hi) as char
    };
    let c2 = if lo < 10 {
        (0x30 + lo) as char
    } else {
        (0x37 + lo) as char
    };
    push_char(&mut s, c1);
    push_char(&mut s, c2);
    proof {
        assert(s@ =~= seq![spec_hex_digit(b / 16), spec_hex_digit(b % 16)]);
    }
    s
}

/// Relies on `String::push`: appends exactly the one character.
#[verifier::external_body]
pub(crate) fn push_char(s: &mut String, c: char)
    ensures
        final(s)@ == old(s)@.push(c),
{
    s.push(c);
}

proof fn lemma_take_nonzero_prefix(s: Seq<u8>, k: int)
    requires
        0 <= k <= s.len(),
        forall|j: int| 0 <= j < k ==> s[j] != 0,
        k == s.len() || s[k] == 0,
    ensures
        spec_take_nonzero(s) == s.take(k),
    decreases s.len(),
{
    if s.len() == 0 {
        assert(s.take(k) =~= Seq::<u8>::empty());
    } else if k == 0 {
        assert(s[0] == 0);
        assert(s.take(0) =~= Seq::<u8>::empty());
    } else {
        assert(s[0] != 0);
        let t = s.drop_first();
        assert(forall|j: int| 0 <= j < k - 1 ==> t[j] == s[j + 1] && t[j] != 0);
        lemma_take_nonzero_prefix(t, k - 1);
        assert(seq![s[0]] + t.take(k - 1) =~= s.take(k));
    }
}

proof fn lemma_take_ascii_prefix(s: Seq<u8>, k: int)
    requires
        0 <= k <= s.len(),
        forall|j: int| 0 <= j < k ==> s[j] != 0 && s[j] < 0x80,
        k == s.len() || s[k] == 0 || s[k] >= 0x80,
    ensures
        spec_take_ascii(s) == s.take(k),
    decreases s.len(),
{
    if s.len() == 0 {
        assert(s.take(k) =~= Seq::<u8>::empty());
    } else if k == 0 {
        assert(s.take(0) =~= Seq::<u8>::empty());
    } else {
        let t = s.drop_first();
        assert(forall|j: int| 0 <= j < k - 1 ==> t[j] == s[j + 1]);
        lemma_take_ascii_prefix(t, k - 1);
        assert(seq![s[0]] + t.take(k - 1) =~= s.take(k));
    }
}

/// Strips trailing whitespace from `bytes.take(p)` and reads the rest as
/// characters, for a prefix `bytes.take(p)` already cut at its end byte.
fn trim_and_collect(bytes: &[u8], p: usize) -> (r: String)
    requires
        p <= bytes@.len(),
    ensures
        r@ == spec_chars_of_bytes(spec_trim_trailing(bytes@.take(p as int))),
{
    let mut q: usize = p;
    while q > 0 && is_trim_byte(bytes[q - 1])
        invariant
            q <= p <= bytes@.len(),
            spec_trim_trailing(bytes@.take(q as int)) == spec_trim_trailing(bytes@.take(p as int)),
        decreases q,
    {
        proof {
            let t = bytes@.take(q as int);
            assert(t.last() == bytes@[q - 1]);
            assert(t.drop_last() =~= bytes@.take(q - 1));
        }
        q = q - 1;
    }
    proof {
        let t = bytes@.take(q as int);
        if q > 0 {
            assert(t.last() == bytes@[q - 1]);
        }
        assert(spec_trim_trailing(t) == t);
    }

    let mut out = String::new();
    let mut k: usize = 0;
    while k < q
        invariant
            k <= q <= bytes@.len(),
            out@ == spec_chars_of_bytes(bytes@.take(k as int)),
            q <= p,
        decreases q - k,
    {
        let c = bytes[k] as char;
        push_char(&mut out, c);
        proof {
            assert(spec_chars_of_bytes(bytes@.take(k + 1)) =~= spec_chars_of_bytes(
                bytes@.take(k as int),
            ).push(bytes@[k as int] as char));
        }
        k = k + 1;
    }
    proof {
        assert(bytes@.take(q as int) == spec_trim_trailing(bytes@.take(p as int)));
    }
    out
}

fn is_trim_byte(b: u8) -> (r: bool)
    ensures
        r == is_name_trim_byte(b),
{
    b == 0x20 || (0x09 <= b && b <= 0x0D) || b == 0x85 || b == 0xA0
}

/// Decodes a name field, stopping at the first NUL byte.
pub(crate) fn decode_name_nonzero(bytes: &[u8]) -> (r: String)
    ensures
        r@ == spec_name_nonzero(bytes@),
{
    let mut p: usize = 0;
    while p < bytes.len() && bytes[p] != 0
        invariant
            p <= bytes@.len(),
            forall|j: int| 0 <= j < p ==> bytes@[j] != 0,
        decreases bytes@.len() - p,
    {
        p = p + 1;
    }
    proof {
        lemma_take_nonzero_prefix(bytes@, p as int);
    }
    trim_and_collect(bytes, p)
}

/// Decodes a name field, stopping at the first NUL or non-ASCII byte.
pub(crate) fn decode_name_ascii(bytes: &[u8]) -> (r: String)
    ensures
        r@ == spec_name_ascii(bytes@),
{
    let mut p: usize = 0;
    while p < bytes.len() && bytes[p] != 0 && bytes[p] < 0x80
        invariant
            p <= bytes@.len(),
            forall|j: int| 0 <= j < p ==> bytes@[j] != 0 && bytes@[j] < 0x80,
        decreases bytes@.len() - p,
    {
        p = p + 1;
    }
    proof {
        lemma_take_ascii_prefix(bytes@, p as int);
    }
    trim_and_collect(bytes, p)
}

} // verus!
