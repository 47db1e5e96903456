//! Numbers as bytes, least significant first.

use vstd::prelude::*;

verus! {

/// The four bytes of a number.
pub open spec fn le_bytes(n: u32) -> Seq<u8> {
    seq![
        (n % 256) as u8,
        (n / 256 % 256) as u8,
        (n / 65536 % 256) as u8,
        (n / 16777216) as u8,
    ]
}

/// The number that four bytes stand for.
pub open spec fn le_value(a: u8, b: u8, c: u8, d: u8) -> u32 {
    (a + 256 * b + 65536 * c + 16777216 * d) as u32
}

/// The four bytes of a number.
pub fn to_le(n: u32) -> (bytes: [u8; 4])
    ensures
        bytes@ == le_bytes(n),
{
    let bytes: [u8; 4] = [
        (n % 256) as u8,
        (n / 256 % 256) as u8,
        (n / 65536 % 256) as u8,
        (n / 16777216) as u8,
    ];
    assert(bytes@ =~= le_bytes(n));
    bytes
}

/// The number that four bytes stand for.
pub fn from_le(a: u8, b: u8, c: u8, d: u8) -> (n: u32)
    ensures
        n == le_value(a, b, c, d),
{
    a as u32 + 256 * b as u32 + 65536 * c as u32 + 16777216 * d as u32
}

/// A number reads back as what was written.
pub proof fn law_bytes_round_trip(n: u32)
    ensures
        le_bytes(n).len() == 4,
        le_value(le_bytes(n)[0], le_bytes(n)[1], le_bytes(n)[2], le_bytes(n)[3]) == n,
{
    assert(n % 256 + 256 * (n / 256 % 256) + 65536 * (n / 65536 % 256) + 16777216 * (n / 16777216)
        == n) by (bit_vector);
}

} // verus!
