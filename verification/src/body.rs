//! The body of a frame: a zero-filled buffer of the announced length that
//! takes in what one read delivers.
//!
//! The buffer is a `bytes::BytesMut`. Verus does not look inside it, so this
//! module names its contents with [`buffer_bytes`] and states, without proof,
//! what the three `BytesMut` operations used here do to them.

use crate::header::Header;
use bytes::BytesMut;
use vstd::prelude::*;

verus! {

/// `bytes::BytesMut`, known to the verifier by name only.
#[verifier::external_type_specification]
#[verifier::external_body]
pub struct ExBytesMut(bytes::BytesMut);

/// The bytes a `BytesMut` holds, first to last.
pub uninterp spec fn buffer_bytes(buffer: BytesMut) -> Seq<u8>;

/// `BytesMut::zeroed`. Assumed: the new buffer holds exactly `len` bytes and
/// each of them is zero. Lengths above `isize::MAX` are left out because no
/// allocation of that size can be made.
#[verifier::external_body]
fn zeroed_buffer(len: usize) -> (buffer: BytesMut)
    requires
        len <= isize::MAX,
    ensures
        buffer_bytes(buffer) == Seq::new(len as nat, |i: int| 0u8),
{
    BytesMut::zeroed(len)
}

/// `BytesMut`'s `DerefMut`, used to overwrite one byte. Assumed: the byte at
/// `index` becomes `value` and every other byte, and the length, stay as they
/// were.
#[verifier::external_body]
fn store_byte(buffer: &mut BytesMut, index: usize, value: u8)
    requires
        index < buffer_bytes(*old(buffer)).len(),
    ensures
        buffer_bytes(*final(buffer)) == buffer_bytes(*old(buffer)).update(index as int, value),
{
    buffer[index] = value;
}

/// `BytesMut`'s `AsRef<[u8]>`. Assumed: the slice is the buffer's contents.
#[verifier::external_body]
fn buffer_slice(buffer: &BytesMut) -> (bytes: &[u8])
    ensures
        bytes@ == buffer_bytes(*buffer),
{
    buffer.as_ref()
}

/// The contents of a body buffer of `length` bytes after one read that
/// delivered `delivered`: the delivered bytes from the front, as many as fit,
/// and zero in every place the read did not reach.
pub open spec fn body_after_read(length: nat, delivered: Seq<u8>) -> Seq<u8> {
    Seq::new(
        length,
        |i: int|
            if i < delivered.len() {
                delivered[i]
            } else {
                0u8
            },
    )
}

/// What a [`Message`] stands for: its header and the bytes of its body.
pub ghost struct MessageView {
    pub header: Header,
    pub body: Seq<u8>,
}

/// A header together with the body read for it. The body always has exactly
/// as many bytes as the header announces, and nothing changes a message once
/// it is built.
pub struct Message {
    header: Header,
    body: BytesMut,
}

impl View for Message {
    type V = MessageView;

    closed spec fn view(&self) -> MessageView {
        MessageView { header: self.header, body: buffer_bytes(self.body) }
    }
}

impl Message {
    #[verifier::type_invariant]
    spec fn well_formed(self) -> bool {
        buffer_bytes(self.body).len() == self.header.length
    }

    /// The header the message was read for.
    pub fn header(&self) -> (header: Header)
        ensures
            header == self@.header,
    {
        self.header
    }

    /// The body, `header().length` bytes long.
    pub fn body(&self) -> (bytes: &[u8])
        ensures
            bytes@ == self@.body,
            bytes@.len() == self@.header.length,
    {
        proof {
            use_type_invariant(self);
        }
        buffer_slice(&self.body)
    }
}

/// Builds the body that `header` announces from what a single read
/// delivered.
///
/// The buffer starts as `header.length` zero bytes. The read fills it from
/// the front and is not repeated: where it delivered fewer bytes than
/// announced the tail stays zero, and bytes beyond the announced length are
/// not taken.
pub fn read_body(header: Header, delivered: &[u8]) -> (message: Message)
    requires
        header.bufferable(),
    ensures
        message@.header == header,
        message@.body.len() == header.length,
        message@.body == body_after_read(header.length as nat, delivered@),
{
    let length = header.length as usize;
    let mut body = zeroed_buffer(length);
    let count = if delivered.len() < length {
        delivered.len()
    } else {
        length
    };
    let mut filled: usize = 0;
    while filled < count
        invariant
            filled <= count,
            count <= delivered@.len(),
            count <= length,
            length == header.length,
            buffer_bytes(body) == Seq::new(
                length as nat,
                |i: int|
                    if i < filled {
                        delivered@[i]
                    } else {
                        0u8
                    },
            ),
        decreases count - filled,
    {
        store_byte(&mut body, filled, delivered[filled]);
        filled += 1;
    }
    Message { header, body }
}

} // verus!
