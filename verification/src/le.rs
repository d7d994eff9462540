//! Little-endian integers.
use vstd::prelude::*;

verus! {

/// The two bytes of `x`, least significant first.
pub open spec fn le16(x: u16) -> Seq<u8> {
    seq![(x % 0x100) as u8, (x / 0x100) as u8]
}

/// The four bytes of `x`, least significant first.
pub open spec fn le32(x: u32) -> Seq<u8> {
    seq![
        (x % 0x100) as u8,
        (x / 0x100 % 0x100) as u8,
        (x / 0x1_0000 % 0x100) as u8,
        (x / 0x100_0000) as u8,
    ]
}

/// The eight bytes of `x`, least significant first.
pub open spec fn le64(x: u64) -> Seq<u8> {
    le32((x % 0x1_0000_0000) as u32) + le32((x / 0x1_0000_0000) as u32)
}

/// The number that two bytes, least significant first, stand for.
pub open spec fn from_le16(bytes: Seq<u8>) -> u16 {
    (bytes[0] + 0x100 * bytes[1]) as u16
}

/// The number that four bytes, least significant first, stand for.
pub open spec fn from_le32(bytes: Seq<u8>) -> u32 {
    (bytes[0] + 0x100 * bytes[1] + 0x1_0000 * bytes[2] + 0x100_0000 * bytes[3]) as u32
}

/// The number that up to eight bytes, least significant first, stand for: 0 if there
/// are none.
pub open spec fn le_number(bytes: Seq<u8>) -> u64
    decreases bytes.len(),
{
    if bytes.len() == 0 {
        0
    } else {
        (bytes[0] + 0x100 * le_number(bytes.skip(1))) as u64
    }
}

/// Reading two written bytes gives the number back.
pub proof fn lemma_le16_reads_back(x: u16)
    ensures
        from_le16(le16(x)) == x,
        le16(x).len() == 2,
{
}

/// Writing a number that was read from two bytes gives the bytes back.
pub proof fn lemma_le16_writes_back(bytes: Seq<u8>)
    requires
        bytes.len() == 2,
    ensures
        le16(from_le16(bytes)) == bytes,
{
    assert(le16(from_le16(bytes)) =~= bytes);
}

/// Reading four written bytes gives the number back.
pub proof fn lemma_le32_reads_back(x: u32)
    ensures
        from_le32(le32(x)) == x,
        le32(x).len() == 4,
{
}

/// The number that four bytes stand for.
proof fn lemma_le_number_of_four(bytes: Seq<u8>)
    requires
        bytes.len() == 4,
    ensures
        le_number(bytes) == from_le32(bytes),
{
    reveal_with_fuel(le_number, 5);
}

/// The number that eight bytes stand for.
proof fn lemma_le_number_of_eight(low: Seq<u8>, high: Seq<u8>)
    requires
        low.len() == 4,
        high.len() == 4,
    ensures
        le_number(low + high) == from_le32(low) + 0x1_0000_0000 * from_le32(high),
{
    let from_0 = low + high;
    let from_1 = from_0.skip(1);
    let from_2 = from_1.skip(1);
    let from_3 = from_2.skip(1);
    assert(from_3.skip(1) =~= high);
    lemma_le_number_of_four(high);
    assert(le_number(from_3) == low[3] + 0x100 * from_le32(high));
    assert(le_number(from_2) == low[2] + 0x100 * le_number(from_3));
    assert(le_number(from_1) == low[1] + 0x100 * le_number(from_2));
    assert(le_number(from_0) == low[0] + 0x100 * le_number(from_1));
}

/// Reading four or eight written bytes gives the number back.
pub proof fn lemma_le_number_reads_back(x: u64)
    ensures
        x <= u32::MAX ==> le_number(le32(x as u32)) == x,
        le_number(le64(x)) == x,
{
    let low = (x % 0x1_0000_0000) as u32;
    let high = (x / 0x1_0000_0000) as u32;
    lemma_le_number_of_eight(le32(low), le32(high));
    lemma_le32_reads_back(low);
    lemma_le32_reads_back(high);
    if x <= u32::MAX {
        lemma_le_number_of_four(le32(x as u32));
        lemma_le32_reads_back(x as u32);
    }
}

/// Writing a number that was read from four bytes gives the bytes back.
pub proof fn lemma_le32_writes_back(bytes: Seq<u8>)
    requires
        bytes.len() == 4,
    ensures
        le32(from_le32(bytes)) == bytes,
{
    let (b0, b1, b2, b3) = (bytes[0] as int, bytes[1] as int, bytes[2] as int, bytes[3] as int);
    let x = b0 + 0x100 * b1 + 0x1_0000 * b2 + 0x100_0000 * b3;
    assert(x % 0x100 == b0 && x / 0x100 == b1 + 0x100 * (b2 + 0x100 * b3));
    assert((b1 + 0x100 * (b2 + 0x100 * b3)) % 0x100 == b1);
    assert(x / 0x1_0000 == b2 + 0x100 * b3);
    assert((b2 + 0x100 * b3) % 0x100 == b2);
    assert(x / 0x100_0000 == b3);
    assert(le32(from_le32(bytes)) =~= bytes);
}

/// The two bytes of `x`, least significant first.
pub fn u16_to_le(x: u16) -> (bytes: [u8; 2])
    ensures
        bytes@ == le16(x),
{
    let bytes: [u8; 2] = [(x % 0x100) as u8, (x / 0x100) as u8];
    assert(bytes@ =~= le16(x));
    bytes
}

/// The four bytes of `x`, least significant first.
pub fn u32_to_le(x: u32) -> (bytes: [u8; 4])
    ensures
        bytes@ == le32(x),
{
    let bytes: [u8; 4] = [
        (x % 0x100) as u8,
        (x / 0x100 % 0x100) as u8,
        (x / 0x1_0000 % 0x100) as u8,
        (x / 0x100_0000) as u8,
    ];
    assert(bytes@ =~= le32(x));
    bytes
}

/// The number in the first two bytes.
pub fn u16_from_le(bytes: &[u8]) -> (x: u16)
    requires
        bytes@.len() >= 2,
    ensures
        x == from_le16(bytes@.take(2)),
{
    bytes[0] as u16 + 0x100 * bytes[1] as u16
}

/// The number in the first four bytes.
pub fn u32_from_le(bytes: &[u8]) -> (x: u32)
    requires
        bytes@.len() >= 4,
    ensures
        x == from_le32(bytes@.take(4)),
{
    bytes[0] as u32 + 0x100 * bytes[1] as u32 + 0x1_0000 * bytes[2] as u32 + 0x100_0000
        * bytes[3] as u32
}

/// Written numbers are the sum of their bytes, each weighted by its place, the first
/// byte least.
pub proof fn law_written_bytes_add_up(small: u16, medium: u32, large: u64)
    ensures
        le16(small).len() == 2,
        small == le16(small)[0] + 0x100 * le16(small)[1],
        le32(medium).len() == 4,
        medium == le32(medium)[0] + 0x100 * le32(medium)[1] + 0x1_0000 * le32(medium)[2]
            + 0x100_0000 * le32(medium)[3],
        le64(large).len() == 8,
        le64(large).take(4) == le32((large % 0x1_0000_0000) as u32),
        le64(large).skip(4) == le32((large / 0x1_0000_0000) as u32),
{
    lemma_le32_reads_back(medium);
    law_read_bytes_add_up(le32(medium));
    assert(le64(large).take(4) =~= le32((large % 0x1_0000_0000) as u32));
    assert(le64(large).skip(4) =~= le32((large / 0x1_0000_0000) as u32));
}

/// Numbers that are read are the sum of their bytes, each weighted by its place, the
/// first byte least.
pub proof fn law_read_bytes_add_up(bytes: Seq<u8>)
    ensures
        from_le16(bytes) == bytes[0] + 0x100 * bytes[1],
        from_le32(bytes) == bytes[0] + 0x100 * bytes[1] + 0x1_0000 * bytes[2] + 0x100_0000
            * bytes[3],
{
}

/// A number of no bytes is 0, and one of four or eight bytes the sum of its bytes, each
/// weighted by its place, the first byte least.
pub proof fn law_long_numbers_add_up(bytes: Seq<u8>)
    ensures
        bytes.len() == 0 ==> le_number(bytes) == 0,
        bytes.len() == 4 ==> le_number(bytes) == bytes[0] + 0x100 * bytes[1] + 0x1_0000 * bytes[2]
            + 0x100_0000 * bytes[3],
        bytes.len() == 8 ==> le_number(bytes) == bytes[0] + 0x100 * bytes[1] + 0x1_0000 * bytes[2]
            + 0x100_0000 * bytes[3] + 0x1_0000_0000 * (bytes[4] + 0x100 * bytes[5] + 0x1_0000
            * bytes[6] + 0x100_0000 * bytes[7]),
{
    if bytes.len() == 4 {
        lemma_le_number_of_four(bytes);
    } else if bytes.len() == 8 {
        lemma_le_number_of_eight(bytes.take(4), bytes.skip(4));
        assert(bytes.take(4) + bytes.skip(4) =~= bytes);
    }
}

} // verus!
