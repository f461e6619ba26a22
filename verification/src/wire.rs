//! Big-endian byte-order helpers for the 32-bit call identifiers that the
//! wire format carries.

use vstd::prelude::*;

verus! {

/// The four big-endian bytes of a 32-bit value, most significant first.
pub open spec fn u32_be_bytes(x: u32) -> Seq<u8> {
    seq![
        (x / 0x1000000) as u8,
        ((x / 0x10000) % 0x100) as u8,
        ((x / 0x100) % 0x100) as u8,
        (x % 0x100) as u8,
    ]
}

/// The 32-bit value read from four bytes in big-endian order.
pub open spec fn be_u32(b: Seq<u8>) -> u32
    recommends
        b.len() == 4,
{
    ((b[0] as u32) * 0x1000000 + (b[1] as u32) * 0x10000 + (b[2] as u32) * 0x100 + (
    b[3] as u32)) as u32
}

/// Reading back the big-endian bytes of a value yields that value.
pub proof fn lemma_u32_be_round_trip(x: u32)
    ensures
        be_u32(u32_be_bytes(x)) == x,
{
    assert(((x / 0x1000000) as u8 as u32) * 0x1000000 + (((x / 0x10000) % 0x100) as u8 as u32)
        * 0x10000 + (((x / 0x100) % 0x100) as u8 as u32) * 0x100 + ((x % 0x100) as u8 as u32)
        == x) by (bit_vector);
}

/// The four big-endian bytes of a 32-bit value, most significant first.
pub fn u32_to_be(x: u32) -> (r: [u8; 4])
    ensures
        r@ == u32_be_bytes(x),
{
    let b0 = (x / 0x1000000) as u8;
    let b1 = ((x / 0x10000) % 0x100) as u8;
    let b2 = ((x / 0x100) % 0x100) as u8;
    let b3 = (x % 0x100) as u8;
    let r = [b0, b1, b2, b3];
    proof {
        assert(r@ =~= u32_be_bytes(x));
    }
    r
}

/// The 32-bit value read from four bytes in big-endian order.
pub fn u32_from_be(b0: u8, b1: u8, b2: u8, b3: u8) -> (x: u32)
    ensures
        x == be_u32(seq![b0, b1, b2, b3]),
{
    (b0 as u32) * 0x1000000 + (b1 as u32) * 0x10000 + (b2 as u32) * 0x100 + (b3 as u32)
}

} // verus!
