//! Little-endian layout of the 32-bit fields of a packet.

use vstd::prelude::*;

verus! {

/// The unsigned 32-bit number with the bit pattern of `n` in two's complement.
pub open spec fn unsigned(n: i32) -> int {
    if n >= 0 {
        n as int
    } else {
        n + 0x1_0000_0000
    }
}

/// The four bytes of `n`, least significant first.
pub open spec fn i32_le_bytes(n: i32) -> Seq<u8> {
    let u = unsigned(n);
    seq![
        (u % 256) as u8,
        (u / 0x100 % 256) as u8,
        (u / 0x1_0000 % 256) as u8,
        (u / 0x100_0000 % 256) as u8,
    ]
}

/// The number whose four bytes, least significant first, open `bytes`.
pub open spec fn i32_from_le_bytes(bytes: Seq<u8>) -> i32
    recommends
        bytes.len() >= 4,
{
    let u = bytes[0] + 0x100 * bytes[1] + 0x1_0000 * bytes[2] + 0x100_0000 * bytes[3];
    if u < 0x8000_0000 {
        u as i32
    } else {
        (u - 0x1_0000_0000) as i32
    }
}

/// Reading back the bytes of a number gives the number, whatever follows them.
pub proof fn lemma_i32_le_round_trip(n: i32, rest: Seq<u8>)
    ensures
        i32_le_bytes(n).len() == 4,
        i32_from_le_bytes(i32_le_bytes(n) + rest) == n,
{
    let b = i32_le_bytes(n);
    let s = b + rest;
    assert(s[0] == b[0] && s[1] == b[1] && s[2] == b[2] && s[3] == b[3]);
}

} // verus!
