use vstd::prelude::*;

verus! {

/// The two bytes of `v` in little-endian two's complement.
pub open spec fn i16_le_bytes(v: i16) -> Seq<u8> {
    seq![(v as int % 256) as u8, ((v as int / 256) % 256) as u8]
}

/// The value of two little-endian two's-complement bytes.
pub open spec fn i16_from_le(lo: u8, hi: u8) -> i16 {
    let u = lo as int + 256 * hi as int;
    if u < 0x8000 { u as i16 } else { (u - 0x1_0000) as i16 }
}

/// The four bytes of `v` in little-endian order.
pub open spec fn u32_le_bytes(v: u32) -> Seq<u8> {
    seq![
        (v as int % 256) as u8,
        ((v as int / 0x100) % 256) as u8,
        ((v as int / 0x1_0000) % 256) as u8,
        ((v as int / 0x100_0000) % 256) as u8,
    ]
}

/// The value of four little-endian bytes.
pub open spec fn u32_from_le(b: Seq<u8>) -> u32 {
    (b[0] as int + 0x100 * b[1] as int + 0x1_0000 * b[2] as int + 0x100_0000 * b[3] as int) as u32
}

/// The two bytes of `v` in little-endian order.
pub fn i16_to_le_bytes(v: i16) -> (r: [u8; 2])
    ensures
        r@ == i16_le_bytes(v),
        r[0] as int + 256 * r[1] as int == if v >= 0 { v as int } else { v as int + 0x1_0000 },
{
    let u: u16 = if v >= 0 { v as u16 } else { (v as i32 + 0x1_0000) as u16 };
    let r = [(u % 256) as u8, (u / 256) as u8];
    assert(r@ =~= i16_le_bytes(v));
    r
}

/// The value of two little-endian two's-complement bytes.
pub fn i16_from_le_bytes(lo: u8, hi: u8) -> (r: i16)
    ensures
        r == i16_from_le(lo, hi),
        r as int == if hi < 0x80 { lo as int + 256 * hi as int } else { lo as int + 256 * hi as int - 0x1_0000 },
{
    let u: u32 = lo as u32 + 256 * hi as u32;
    if u < 0x8000 {
        u as i16
    } else {
        (u as i32 - 0x1_0000) as i16
    }
}

/// The four bytes of `v` in little-endian order.
pub fn u32_to_le_bytes(v: u32) -> (r: [u8; 4])
    ensures
        r@ == u32_le_bytes(v),
        r[0] as int + 0x100 * r[1] as int + 0x1_0000 * r[2] as int + 0x100_0000 * r[3] as int == v,
{
    let r = [
        (v % 0x100) as u8,
        ((v / 0x100) % 0x100) as u8,
        ((v / 0x1_0000) % 0x100) as u8,
        ((v / 0x100_0000) % 0x100) as u8,
    ];
    assert(r@ =~= u32_le_bytes(v));
    r
}

/// The value of four little-endian bytes.
pub fn u32_from_le_bytes(b0: u8, b1: u8, b2: u8, b3: u8) -> (r: u32)
    ensures
        r == u32_from_le(seq![b0, b1, b2, b3]),
        r == b0 as int + 0x100 * b1 as int + 0x1_0000 * b2 as int + 0x100_0000 * b3 as int,
{
    b0 as u32 + 0x100 * b1 as u32 + 0x1_0000 * b2 as u32 + 0x100_0000 * b3 as u32
}

/// Reading back the little-endian bytes of an `i16` gives the same value.
pub proof fn lemma_i16_le_roundtrip(v: i16)
    ensures
        i16_from_le(i16_le_bytes(v)[0], i16_le_bytes(v)[1]) == v,
{
}

/// Reading back the little-endian bytes of a `u32` gives the same value.
pub proof fn lemma_u32_le_roundtrip(v: u32)
    ensures
        u32_from_le(u32_le_bytes(v)) == v,
{
}

} // verus!
