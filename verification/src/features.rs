//! The feature record the pipeline emits, and the decoding of device-mapped
//! bytes into typed values.
//!
//! A staging buffer hands back raw little-endian bytes; the readback step
//! views them as 32-bit words (a count, or packed feature records) and
//! copies plain values out before the buffer is unmapped.

use vstd::prelude::*;

verus! {

/// One detected feature: the pixel coordinates of a corner candidate.
#[derive(Clone, Copy, Debug, PartialEq, Eq, Structural)]
pub struct OrbData {
    pub x: u32,
    pub y: u32,
}

/// The value four little-endian bytes encode.
pub open spec fn u32_le(b0: u8, b1: u8, b2: u8, b3: u8) -> int {
    b0 + 256 * b1 + 65536 * b2 + 16777216 * b3
}

/// The word at byte offset `4*i` of a little-endian byte sequence.
pub open spec fn word_at(b: Seq<u8>, i: int) -> int {
    u32_le(b[4 * i], b[4 * i + 1], b[4 * i + 2], b[4 * i + 3])
}

/// Assembles one 32-bit value from four little-endian bytes.
pub fn u32_from_le(b0: u8, b1: u8, b2: u8, b3: u8) -> (r: u32)
    ensures
        r == u32_le(b0, b1, b2, b3),
{
    b0 as u32 + 256 * (b1 as u32) + 65536 * (b2 as u32) + 16777216 * (b3 as u32)
}

/// Views mapped staging-buffer bytes as a table of 32-bit words.
pub fn parse_u32s(bytes: &Vec<u8>) -> (r: Vec<u32>)
    requires
        bytes@.len() % 4 == 0,
    ensures
        r@.len() == bytes@.len() / 4,
        forall|i: int| 0 <= i < r@.len() ==> r@[i] == word_at(bytes@, i),
{
    let n = bytes.len() / 4;
    let mut r: Vec<u32> = Vec::new();
    let mut i: usize = 0;
    while i < n
        invariant
            i <= n,
            n == bytes@.len() / 4,
            bytes@.len() % 4 == 0,
            bytes@.len() <= usize::MAX,
            r@.len() == i,
            forall|j: int| 0 <= j < i ==> r@[j] == word_at(bytes@, j),
        decreases n - i,
    {
        proof {
            assert(bytes@.len() == 4 * (bytes@.len() / 4) + bytes@.len() % 4);
            assert(4 * i + 4 <= bytes@.len());
        }
        let base = 4 * i;
        r.push(u32_from_le(bytes[base], bytes[base + 1], bytes[base + 2], bytes[base + 3]));
        i = i + 1;
    }
    r
}

/// Views mapped staging-buffer bytes as packed feature records: two
/// little-endian words per record, x first.
pub fn parse_features(bytes: &Vec<u8>) -> (r: Vec<OrbData>)
    requires
        bytes@.len() % 8 == 0,
    ensures
        r@.len() == bytes@.len() / 8,
        forall|i: int|
            0 <= i < r@.len() ==> (#[trigger] r@[i]).x == word_at(bytes@, 2 * i) && r@[i].y
                == word_at(bytes@, 2 * i + 1),
{
    let n = bytes.len() / 8;
    let mut r: Vec<OrbData> = Vec::new();
    let mut i: usize = 0;
    while i < n
        invariant
            i <= n,
            n == bytes@.len() / 8,
            bytes@.len() % 8 == 0,
            bytes@.len() <= usize::MAX,
            r@.len() == i,
            forall|j: int|
                0 <= j < i ==> (#[trigger] r@[j]).x == word_at(bytes@, 2 * j) && r@[j].y == word_at(
                    bytes@,
                    2 * j + 1,
                ),
        decreases n - i,
    {
        proof {
            assert(bytes@.len() == 8 * (bytes@.len() / 8) + bytes@.len() % 8);
            assert(8 * i + 8 <= bytes@.len());
        }
        let base = 8 * i;
        let x = u32_from_le(bytes[base], bytes[base + 1], bytes[base + 2], bytes[base + 3]);
        let y = u32_from_le(bytes[base + 4], bytes[base + 5], bytes[base + 6], bytes[base + 7]);
        r.push(OrbData { x, y });
        i = i + 1;
    }
    r
}

/// Reads the device-computed scalar a counter readback produced: the first
/// little-endian word of the mapped bytes.
pub fn count_from_bytes(bytes: &Vec<u8>) -> (r: u32)
    requires
        bytes@.len() >= 4,
    ensures
        r == word_at(bytes@, 0),
{
    u32_from_le(bytes[0], bytes[1], bytes[2], bytes[3])
}

} // verus!
