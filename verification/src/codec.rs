//! The snapshot wire format: a universe is persisted as lowercase hex
//! text, two digits per channel, so a recovery entry survives any store
//! that can hold a short string. Encoding is total; decoding rejects
//! anything that is not hex text of the right length.

use vstd::prelude::*;
use crate::dmx::{Universe, DMX_MAX, spec_blank};

verus! {

/// The length of an encoded universe: two hex digits per channel.
pub const SNAPSHOT_LEN: usize = 1024;

/// The ASCII hex digit for a value below 16 ('0'..'9', then 'a'..'f').
pub open spec fn hex_digit(n: u8) -> u8 {
    if n < 10 {
        (0x30 + n) as u8
    } else {
        (0x57 + n) as u8
    }
}

/// Whether `b` is the ASCII code of a lowercase hex digit.
pub open spec fn is_hex_digit(b: u8) -> bool {
    (0x30 <= b <= 0x39) || (0x61 <= b <= 0x66)
}

/// The value of the ASCII hex digit `b`.
pub open spec fn hex_val(b: u8) -> u8 {
    if 0x30 <= b <= 0x39 {
        (b - 0x30) as u8
    } else {
        (b - 0x57) as u8
    }
}

/// The hex text for the byte sequence `s`: for each byte, the digit of
/// its high nibble and then the digit of its low nibble.
pub open spec fn hex_encode(s: Seq<u8>) -> Seq<u8> {
    Seq::new(
        2 * s.len(),
        |i: int|
            if i % 2 == 0 {
                hex_digit((s[i / 2] / 16) as u8)
            } else {
                hex_digit((s[i / 2] % 16) as u8)
            },
    )
}

/// Whether `s` is well-formed hex text: even length, lowercase digits only.
pub open spec fn is_hex_seq(s: Seq<u8>) -> bool {
    s.len() % 2 == 0 && forall|i: int| 0 <= i < s.len() ==> is_hex_digit(#[trigger] s[i])
}

/// The byte sequence that the hex text `s` stands for.
pub open spec fn hex_decode(s: Seq<u8>) -> Seq<u8> {
    Seq::new(s.len() / 2, |i: int| (hex_val(s[2 * i]) * 16 + hex_val(s[2 * i + 1])) as u8)
}

fn encode_nibble(n: u8) -> (digit: u8)
    requires
        n < 16,
    ensures
        digit == hex_digit(n),
{
    if n < 10 {
        0x30 + n
    } else {
        0x57 + n
    }
}

fn decode_digit(b: u8) -> (value: Option<u8>)
    ensures
        match value {
            Some(v) => is_hex_digit(b) && v == hex_val(b) && v < 16,
            None => !is_hex_digit(b),
        },
{
    if 0x30 <= b && b <= 0x39 {
        Some(b - 0x30)
    } else if 0x61 <= b && b <= 0x66 {
        Some(b - 0x57)
    } else {
        None
    }
}

/// Encode a byte sequence as hex text.
pub fn encode_bytes(bytes: &Vec<u8>) -> (text: Vec<u8>)
    requires
        bytes@.len() <= usize::MAX / 2,
    ensures
        text@ == hex_encode(bytes@),
{
    let mut text: Vec<u8> = Vec::new();
    let mut i: usize = 0;
    while i < bytes.len()
        invariant
            i <= bytes@.len(),
            bytes@.len() <= usize::MAX / 2,
            text@.len() == 2 * i,
            forall|j: int| 0 <= j < text@.len() ==> text@[j] == hex_encode(bytes@)[j],
        decreases bytes@.len() - i,
    {
        let b = bytes[i];
        text.push(encode_nibble(b / 16));
        text.push(encode_nibble(b % 16));
        i += 1;
    }
    proof {
        assert(text@ =~= hex_encode(bytes@));
    }
    text
}

/// Decode hex text back into bytes; `None` exactly when the text is not
/// well-formed hex.
pub fn decode_bytes(text: &Vec<u8>) -> (bytes: Option<Vec<u8>>)
    ensures
        match bytes {
            Some(v) => is_hex_seq(text@) && v@ == hex_decode(text@),
            None => !is_hex_seq(text@),
        },
{
    if text.len() % 2 != 0 {
        return None;
    }
    let mut bytes: Vec<u8> = Vec::new();
    let mut i: usize = 0;
    while i < text.len() / 2
        invariant
            text@.len() % 2 == 0,
            i <= text@.len() / 2,
            bytes@.len() == i,
            forall|j: int| 0 <= j < 2 * i ==> is_hex_digit(#[trigger] text@[j]),
            forall|j: int| 0 <= j < i ==> bytes@[j] == hex_decode(text@)[j],
        decreases text@.len() - i,
    {
        let high = match decode_digit(text[2 * i]) {
            Some(v) => v,
            None => {
                return None;
            },
        };
        let low = match decode_digit(text[2 * i + 1]) {
            Some(v) => v,
            None => {
                return None;
            },
        };
        bytes.push(high * 16 + low);
        i += 1;
    }
    proof {
        assert(bytes@ =~= hex_decode(text@));
    }
    Some(bytes)
}

/// Serialize a universe into its snapshot text.
pub fn serialize_universe(universe: &Universe) -> (text: Vec<u8>)
    requires
        universe.wf(),
    ensures
        text@ == hex_encode(universe@),
        text@.len() == SNAPSHOT_LEN,
{
    let bytes = universe.as_bytes();
    encode_bytes(&bytes)
}

/// The universe a persisted snapshot stands for: the decoded channel
/// values when the text is a well-formed snapshot, and a blank universe
/// when it is malformed (recovery substitutes a blank universe rather
/// than failing).
pub open spec fn spec_snapshot_universe(text: Seq<u8>) -> Seq<u8> {
    if is_hex_seq(text) && text.len() == SNAPSHOT_LEN {
        hex_decode(text)
    } else {
        spec_blank()
    }
}

/// Deserialize snapshot text, substituting a blank universe for
/// malformed input.
pub fn deserialize_universe(text: &Vec<u8>) -> (universe: Universe)
    ensures
        universe.wf(),
        universe@ == spec_snapshot_universe(text@),
{
    if text.len() != SNAPSHOT_LEN {
        return Universe::new();
    }
    match decode_bytes(text) {
        Some(bytes) => {
            proof {
                assert(hex_decode(text@).len() == DMX_MAX);
            }
            Universe::from_bytes(bytes)
        },
        None => Universe::new(),
    }
}

/// A hex digit is well-formed text and decodes back to its value.
proof fn lemma_digit_round_trip(n: u8)
    requires
        n < 16,
    ensures
        is_hex_digit(hex_digit(n)),
        hex_val(hex_digit(n)) == n,
{
}

/// Round trip: the encoding of any byte sequence is well-formed hex text
/// and decodes back to exactly that sequence.
pub proof fn lemma_hex_round_trip(s: Seq<u8>)
    ensures
        is_hex_seq(hex_encode(s)),
        hex_decode(hex_encode(s)) == s,
{
    let text = hex_encode(s);
    assert forall|i: int| 0 <= i < text.len() implies is_hex_digit(#[trigger] text[i]) by {
        if i % 2 == 0 {
            lemma_digit_round_trip((s[i / 2] / 16) as u8);
        } else {
            lemma_digit_round_trip((s[i / 2] % 16) as u8);
        }
    }
    assert forall|i: int| 0 <= i < s.len() implies hex_decode(text)[i] == s[i] by {
        let b = s[i];
        lemma_digit_round_trip((b / 16) as u8);
        lemma_digit_round_trip((b % 16) as u8);
        assert(text[2 * i] == hex_digit((b / 16) as u8));
        assert(text[2 * i + 1] == hex_digit((b % 16) as u8));
        assert((b / 16) * 16 + (b % 16) == b) by (nonlinear_arith);
    }
    assert(hex_decode(text) =~= s);
}

/// Round trip for a whole universe: serializing any 512-channel universe
/// and deserializing the result yields the original channel values.
pub proof fn lemma_universe_round_trip(u: Seq<u8>)
    requires
        u.len() == DMX_MAX,
    ensures
        spec_snapshot_universe(hex_encode(u)) == u,
{
    lemma_hex_round_trip(u);
}

} // verus!
