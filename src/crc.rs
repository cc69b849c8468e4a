//! CRC-16/XMODEM checksum of the primary protocol's frames.

use vstd::prelude::*;

verus! {

/// The CRC-16/XMODEM checksum (polynomial 0x1021, initial value 0, no
/// reflection, no final xor) of a byte sequence.
pub uninterp spec fn xmodem_of(data: Seq<u8>) -> u16;

/// The two big-endian bytes of a 16-bit value.
pub open spec fn be_bytes(v: u16) -> Seq<u8> {
    seq![(v / 256) as u8, (v % 256) as u8]
}

/// Relies on `crc::Crc::<u16>::checksum` with the `CRC_16_XMODEM` algorithm:
/// the checksum depends on the bytes alone, and that of no bytes is the
/// algorithm's initial value 0 (its `xorout` is 0 as well).
#[verifier::external_body]
fn xmodem_checksum(data: &[u8]) -> (r: u16)
    ensures
        r == xmodem_of(data@),
        data@.len() == 0 ==> r == 0,
{
    ::crc::Crc::<u16>::new(&::crc::CRC_16_XMODEM).checksum(data)
}

/// CRC-16/XMODEM of `data`, as the two big-endian bytes that end a frame.
pub fn crc16_xmodem(data: &[u8]) -> (r: [u8; 2])
    ensures
        r@ == be_bytes(xmodem_of(data@)),
        data@.len() == 0 ==> r@ == seq![0u8, 0u8],
{
    let v = xmodem_checksum(data);
    let r = [(v / 256) as u8, (v % 256) as u8];
    assert(r@ =~= be_bytes(v));
    r
}

} // verus!
