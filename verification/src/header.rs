//! The fixed-size frame header and its wire layout.
//!
//! ```text
//! byte   0         1              2..=5                 6..=7
//!        version   message type   body length (BE)      reserved
//! ```

use crate::error::FlowError;
use vstd::prelude::*;

verus! {

/// Number of bytes a header occupies on the wire.
pub const HEADER_LEN: usize = 8;

/// The fields carried by a frame header. The two reserved bytes are not kept.
#[derive(Clone, Copy, Debug, PartialEq, Eq, Structural)]
pub struct Header {
    /// Protocol version, byte 0 of the header.
    pub version: u8,
    /// Message type, byte 1 of the header.
    pub message_type: u8,
    /// Number of body bytes that follow the header.
    pub length: u32,
}

/// The value of four bytes read as a big-endian unsigned integer.
pub open spec fn be_u32(b0: u8, b1: u8, b2: u8, b3: u8) -> int {
    b0 as int * 0x100_0000 + b1 as int * 0x1_0000 + b2 as int * 0x100 + b3 as int
}

/// The header that the first eight bytes of `bytes` encode.
pub open spec fn header_of(bytes: Seq<u8>) -> Header
    recommends
        bytes.len() >= HEADER_LEN,
{
    Header {
        version: bytes[0],
        message_type: bytes[1],
        length: be_u32(bytes[2], bytes[3], bytes[4], bytes[5]) as u32,
    }
}

/// What reading a header yields when `delivered` is all the stream gave
/// before it ended or the header was full.
pub open spec fn header_read(delivered: Seq<u8>) -> Result<Header, FlowError> {
    if delivered.len() < HEADER_LEN {
        Err(FlowError::IncompleteHeader)
    } else {
        Ok(header_of(delivered))
    }
}

impl Header {
    /// Whether a buffer of `length` bytes can exist on this machine: no
    /// allocation is larger than `isize::MAX` bytes.
    pub open spec fn bufferable(self) -> bool {
        self.length as int <= isize::MAX as int
    }

    /// Tests [`Header::bufferable`]. Always true where `usize` has 64 bits.
    pub fn fits_in_memory(&self) -> (fits: bool)
        ensures
            fits == self.bufferable(),
    {
        self.length as usize <= isize::MAX as usize
    }
}

/// Combines four bytes, most significant first, into one `u32`.
pub fn u32_from_be(b0: u8, b1: u8, b2: u8, b3: u8) -> (value: u32)
    ensures
        value as int == be_u32(b0, b1, b2, b3),
{
    let high: u32 = b0 as u32 * 0x100_0000 + b1 as u32 * 0x1_0000;
    let low: u32 = b2 as u32 * 0x100 + b3 as u32;
    high + low
}

/// Parses the header at the front of `delivered`.
///
/// Fewer than eight bytes are an incomplete header. Bytes 6 and 7 are
/// reserved and accepted whatever they hold; bytes past the eighth belong to
/// the body and are not looked at.
pub fn read_header(delivered: &[u8]) -> (outcome: Result<Header, FlowError>)
    ensures
        outcome == header_read(delivered@),
{
    if delivered.len() < HEADER_LEN {
        return Err(FlowError::IncompleteHeader);
    }
    let length = u32_from_be(delivered[2], delivered[3], delivered[4], delivered[5]);
    Ok(Header { version: delivered[0], message_type: delivered[1], length })
}

/// The length field is the big-endian value of bytes 2 to 5 and of nothing
/// else: two inputs that agree on those four bytes yield the same length,
/// whatever their version, type and reserved bytes.
pub proof fn length_depends_on_length_bytes_only(a: Seq<u8>, b: Seq<u8>)
    requires
        a.len() >= HEADER_LEN,
        b.len() >= HEADER_LEN,
        a[2] == b[2],
        a[3] == b[3],
        a[4] == b[4],
        a[5] == b[5],
    ensures
        header_read(a) is Ok,
        header_read(a)->Ok_0.length as int == be_u32(a[2], a[3], a[4], a[5]),
        header_read(a)->Ok_0.length == header_read(b)->Ok_0.length,
{
}

} // verus!
