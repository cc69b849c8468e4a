//! The decisions of the two transports that do not touch a socket: the
//! channel address, the acceptance of a byte-stream frame header, the
//! fallback channel, and the translation of message-link frames.

use vstd::prelude::*;

use crate::aap::{aap_decode, handler_command, handler_data, AapPacket};
use crate::packet::{be_value, HuaweiSppPacket, MAGIC};

verus! {

/// Send and receive timeout of the byte-stream link, in seconds.
pub const STREAM_TIMEOUT_SECS: u64 = 5;

/// Send and receive timeout of the message link, in seconds.
pub const MESSAGE_TIMEOUT_SECS: u64 = 10;

/// Size of the byte-stream receive buffer.
pub const STREAM_BUFFER: usize = 1024;

/// Smallest accepted value of the length field of a byte-stream frame.
pub const MIN_FRAME_LENGTH: usize = 3;

/// Largest accepted value of the length field of a byte-stream frame.
pub const MAX_FRAME_LENGTH: usize = 1000;

/// What the 4-byte header of a byte-stream frame says to do.
#[derive(Debug, Clone, Copy, PartialEq, Eq, Structural)]
pub enum HeaderCheck {
    /// The first byte is not the magic byte: drop it and resynchronize.
    BadMagic,
    /// The length field lies outside the accepted window.
    BadLength,
    /// The frame would not fit the receive buffer.
    TooLarge,
    /// Read this many more bytes (the body after the reserved byte and the
    /// checksum), then decode the frame.
    Body(usize),
}

/// Checks a frame header against the acceptance window and a receive buffer
/// of `buf_len` bytes.
pub fn check_header(header: &[u8], buf_len: usize) -> (r: HeaderCheck)
    requires
        header@.len() >= 4,
    ensures
        ({
            let length = be_value(header@[1], header@[2]);
            if header@[0] != MAGIC {
                r == HeaderCheck::BadMagic
            } else if length < MIN_FRAME_LENGTH || length > MAX_FRAME_LENGTH {
                r == HeaderCheck::BadLength
            } else if 4 + length + 1 > buf_len {
                r == HeaderCheck::TooLarge
            } else {
                r == HeaderCheck::Body((length + 1) as usize)
            }
        }),
{
    if header[0] != MAGIC {
        return HeaderCheck::BadMagic;
    }
    let length = (header[1] as usize) * 256 + header[2] as usize;
    if length < MIN_FRAME_LENGTH || length > MAX_FRAME_LENGTH {
        return HeaderCheck::BadLength;
    }
    let remaining = length - 1 + 2;
    if 4 + remaining > buf_len {
        return HeaderCheck::TooLarge;
    }
    HeaderCheck::Body(remaining)
}

/// The device address as the byte-stream socket takes it: the bytes of its
/// canonical form in reverse order.
pub fn stream_address(address: [u8; 6]) -> (r: [u8; 6])
    ensures
        r@ == address@.reverse(),
{
    let r = [address[5], address[4], address[3], address[2], address[1], address[0]];
    assert(r@ =~= address@.reverse());
    r
}

/// The channel tried when the configured one fails: 16 falls back to 1,
/// any other to 16.
pub fn alternate_channel(channel: u8) -> (r: u8)
    ensures
        r == (if channel == 16 { 1u8 } else { 16u8 }),
{
    if channel == 16 {
        1
    } else {
        16
    }
}

/// The channels to try in order: the configured one, then its alternate.
pub fn channels_to_try(channel: u8) -> (r: [u8; 2])
    ensures
        r[0] == channel,
        r[1] == (if channel == 16 { 1u8 } else { 16u8 }),
{
    [channel, alternate_channel(channel)]
}

/// A received message-link frame in the primary shape; `None` when it is
/// shorter than five bytes.
pub fn decode_message(data: &[u8]) -> (r: Option<HuaweiSppPacket>)
    ensures
        match r {
            Some(p) => aap_decode(data@) matches Some((op, payload)) && p.command_id@
                == handler_command(op, payload) && p.params() == Map::<u8, Seq<u8>>::empty().insert(
                0,
                handler_data(op, payload),
            ),
            None => aap_decode(data@) is None,
        },
{
    match AapPacket::from_bytes(data) {
        Some(aap) => Some(aap.to_handler_packet()),
        None => None,
    }
}

} // verus!
