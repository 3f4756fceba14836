//! Little-endian 32-bit numbers, as the record format stores them.

use byteorder::LittleEndian;
use byteorder::ReadBytesExt;
use vstd::prelude::*;

verus! {

/// The number that the first four bytes of `b` spell, least significant byte
/// first.
pub open spec fn le_u32(b: Seq<u8>) -> int
    recommends
        b.len() >= 4,
{
    b[0] + 0x100 * b[1] + 0x1_0000 * b[2] + 0x100_0000 * b[3]
}

/// The same four bytes read as a signed number in two's complement.
pub open spec fn le_i32(b: Seq<u8>) -> int
    recommends
        b.len() >= 4,
{
    if le_u32(b) < 0x8000_0000 {
        le_u32(b)
    } else {
        le_u32(b) - 0x1_0000_0000
    }
}

/// The four bytes that spell `n`, least significant byte first.
pub open spec fn u32_le_bytes(n: int) -> Seq<u8>
    recommends
        0 <= n < 0x1_0000_0000,
{
    seq![
        (n % 0x100) as u8,
        (n / 0x100 % 0x100) as u8,
        (n / 0x1_0000 % 0x100) as u8,
        (n / 0x100_0000 % 0x100) as u8,
    ]
}

/// Reading back the bytes that spell a number gives that number.
pub proof fn lemma_le_u32_of_bytes(n: int)
    requires
        0 <= n < 0x1_0000_0000,
    ensures
        u32_le_bytes(n).len() == 4,
        le_u32(u32_le_bytes(n)) == n,
{
}

/// `ReadBytesExt::read_u32::<LittleEndian>` of byteorder, on a byte slice as
/// the reader. It fills a four-byte buffer with `read_exact`, which fails on a
/// slice that holds fewer than four bytes, and hands the buffer to
/// `LittleEndian::read_u32`, which is `u32::from_le_bytes`. The contract says
/// so: no number from fewer than four bytes, otherwise the number that the
/// first four spell.
#[verifier::external_body]
pub(crate) fn read_u32_le(bytes: &[u8]) -> (number: Option<u32>)
    ensures
        bytes@.len() < 4 ==> number is None,
        bytes@.len() >= 4 ==> number == Some(le_u32(bytes@) as u32),
{
    let mut reader = bytes;
    reader.read_u32::<LittleEndian>().ok()
}

/// `ReadBytesExt::read_i32::<LittleEndian>` of byteorder, on a byte slice as
/// the reader. It reads as `read_u32` does and casts the number to `i32`, so
/// the four bytes are taken in two's complement.
#[verifier::external_body]
pub(crate) fn read_i32_le(bytes: &[u8]) -> (number: Option<i32>)
    ensures
        bytes@.len() < 4 ==> number is None,
        bytes@.len() >= 4 ==> number == Some(le_i32(bytes@) as i32),
{
    let mut reader = bytes;
    reader.read_i32::<LittleEndian>().ok()
}

} // verus!
