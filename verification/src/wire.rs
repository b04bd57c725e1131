//! Byte order of the multi-byte protocol fields: every `u16` and `u32`
//! field of a message is written least significant byte first.

use vstd::prelude::*;

verus! {

/// The two bytes of `value`, least significant first.
pub open spec fn le_u16_bytes(value: u16) -> Seq<u8> {
    seq![(value % 0x100) as u8, (value / 0x100) as u8]
}

/// The four bytes of `value`, least significant first.
pub open spec fn le_u32_bytes(value: u32) -> Seq<u8> {
    seq![
        (value % 0x100) as u8,
        (value / 0x100 % 0x100) as u8,
        (value / 0x1_0000 % 0x100) as u8,
        (value / 0x100_0000) as u8,
    ]
}

/// The little-endian `u16` stored at `bytes[at..at + 2]`.
pub open spec fn le_u16_at(bytes: Seq<u8>, at: int) -> u16 {
    (bytes[at] + bytes[at + 1] * 0x100) as u16
}

/// The little-endian `u32` stored at `bytes[at..at + 4]`.
pub open spec fn le_u32_at(bytes: Seq<u8>, at: int) -> u32 {
    (bytes[at] + bytes[at + 1] * 0x100 + bytes[at + 2] * 0x1_0000 + bytes[at + 3]
        * 0x100_0000) as u32
}

/// Reading back the bytes of a `u16` gives the value.
pub proof fn lemma_u16_bytes_read_back(value: u16)
    ensures
        le_u16_at(le_u16_bytes(value), 0) == value,
{
    let v = value as int;
    assert(v == v % 0x100 + (v / 0x100) * 0x100) by (nonlinear_arith);
    assert(0 <= v % 0x100 < 0x100) by (nonlinear_arith);
    assert(0 <= v / 0x100 < 0x100) by (nonlinear_arith)
        requires
            0 <= v < 0x1_0000,
    ;
}

/// Writing the `u16` stored in two bytes gives the same two bytes back.
pub proof fn lemma_u16_value_written_back(bytes: Seq<u8>, at: int)
    requires
        0 <= at,
        at + 2 <= bytes.len(),
    ensures
        le_u16_bytes(le_u16_at(bytes, at)) == bytes.subrange(at, at + 2),
{
    let b0 = bytes[at] as int;
    let b1 = bytes[at + 1] as int;
    assert((b0 + b1 * 0x100) % 0x100 == b0 && (b0 + b1 * 0x100) / 0x100 == b1) by (nonlinear_arith)
        requires
            0 <= b0 < 0x100,
            0 <= b1 < 0x100,
    ;
    assert(le_u16_bytes(le_u16_at(bytes, at)) =~= bytes.subrange(at, at + 2));
}

/// Reading back the bytes of a `u32` gives the value.
pub proof fn lemma_u32_bytes_read_back(value: u32)
    ensures
        le_u32_at(le_u32_bytes(value), 0) == value,
{
    let v = value as int;
    assert(v == v % 0x100 + (v / 0x100 % 0x100) * 0x100 + (v / 0x1_0000 % 0x100) * 0x1_0000 + (v
        / 0x100_0000) * 0x100_0000 && 0 <= v / 0x100_0000 < 0x100) by (nonlinear_arith)
        requires
            0 <= v < 0x1_0000_0000,
    {
        assert(v == (v / 0x100) * 0x100 + v % 0x100);
        let w = v / 0x100;
        assert(w == (w / 0x100) * 0x100 + w % 0x100);
        assert(w / 0x100 == v / 0x1_0000);
        let x = v / 0x1_0000;
        assert(x == (x / 0x100) * 0x100 + x % 0x100);
        assert(x / 0x100 == v / 0x100_0000);
    }
}

/// Writing the `u32` stored in four bytes gives the same four bytes back.
pub proof fn lemma_u32_value_written_back(bytes: Seq<u8>, at: int)
    requires
        0 <= at,
        at + 4 <= bytes.len(),
    ensures
        le_u32_bytes(le_u32_at(bytes, at)) == bytes.subrange(at, at + 4),
{
    let b0 = bytes[at] as int;
    let b1 = bytes[at + 1] as int;
    let b2 = bytes[at + 2] as int;
    let b3 = bytes[at + 3] as int;
    let v = b0 + b1 * 0x100 + b2 * 0x1_0000 + b3 * 0x100_0000;
    assert(v % 0x100 == b0 && v / 0x100 % 0x100 == b1 && v / 0x1_0000 % 0x100 == b2 && v
        / 0x100_0000 == b3) by (nonlinear_arith)
        requires
            0 <= b0 < 0x100,
            0 <= b1 < 0x100,
            0 <= b2 < 0x100,
            0 <= b3 < 0x100,
            v == b0 + b1 * 0x100 + b2 * 0x1_0000 + b3 * 0x100_0000,
    ;
    assert(le_u32_bytes(le_u32_at(bytes, at)) =~= bytes.subrange(at, at + 4));
}


/// Writes `value` little-endian into `data[index..index + 2]`.
pub(crate) fn put_u16(data: &mut [u8; 8], index: usize, value: u16)
    requires
        index + 2 <= 8,
    ensures
        final(data)@ == old(data)@.update(index as int, le_u16_bytes(value)[0]).update(
            index + 1,
            le_u16_bytes(value)[1],
        ),
{
    data[index] = (value % 0x100) as u8;
    data[index + 1] = (value / 0x100) as u8;
}

/// Writes `value` little-endian into `data[index..index + 4]`.
pub(crate) fn put_u32(data: &mut [u8; 8], index: usize, value: u32)
    requires
        index + 4 <= 8,
    ensures
        final(data)@ == old(data)@.update(index as int, le_u32_bytes(value)[0]).update(
            index + 1,
            le_u32_bytes(value)[1],
        ).update(index + 2, le_u32_bytes(value)[2]).update(index + 3, le_u32_bytes(value)[3]),
{
    data[index] = (value % 0x100) as u8;
    data[index + 1] = (value / 0x100 % 0x100) as u8;
    data[index + 2] = (value / 0x1_0000 % 0x100) as u8;
    data[index + 3] = (value / 0x100_0000) as u8;
}

/// Reads the little-endian `u16` at `data[index..index + 2]`.
pub(crate) fn read_u16(data: &[u8], index: usize) -> (value: u16)
    requires
        index + 2 <= data@.len(),
    ensures
        value == le_u16_at(data@, index as int),
{
    (data[index] as u16) + (data[index + 1] as u16) * 0x100
}

/// Reads the little-endian `u32` at `data[index..index + 4]`.
pub(crate) fn read_u32(data: &[u8], index: usize) -> (value: u32)
    requires
        index + 4 <= data@.len(),
    ensures
        value == le_u32_at(data@, index as int),
{
    (data[index] as u32) + (data[index + 1] as u32) * 0x100 + (data[index + 2] as u32)
        * 0x1_0000 + (data[index + 3] as u32) * 0x100_0000
}

} // verus!
