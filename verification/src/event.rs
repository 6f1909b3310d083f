//! Events: the messages that go from the server to a client.

use crate::buffer::{bytes_extend, bytes_of};
use crate::message::{args_view, encode_message, message_wire, Arg, EncodeError};
use crate::wire::Endian;
use bytes::BytesMut;
use vstd::prelude::*;

verus! {

/// A message that can be written to a client.
pub trait Event {
    /// The bytes of the event.
    spec fn wire(&self, order: Endian) -> Seq<u8>;

    /// Whether the event can be written at all.
    spec fn encodable(&self, order: Endian) -> bool;

    /// Appends the bytes of the event to `dst`, or leaves `dst` as it is and
    /// fails when the event cannot be written.
    fn encode(&self, order: Endian, dst: &mut BytesMut) -> (r: Result<(), EncodeError>)
        ensures
            r is Ok <==> self.encodable(order),
            r is Ok ==> bytes_of(*final(dst)) == bytes_of(*old(dst)) + self.wire(order),
            r is Err ==> bytes_of(*final(dst)) == bytes_of(*old(dst)),
    ;
}

/// Encodes a message and appends it to `dst`; leaves `dst` as it is when
/// the message is longer than a header can describe.
pub fn encode_into(order: Endian, sender: u32, opcode: u16, args: &Vec<Arg>, dst: &mut BytesMut) -> (r:
    Result<(), EncodeError>)
    ensures
        r is Ok <==> message_wire(order, sender, opcode, args_view(args@)).len() <= 0xffff,
        r is Ok ==> bytes_of(*final(dst)) == bytes_of(*old(dst)) + message_wire(
            order,
            sender,
            opcode,
            args_view(args@),
        ),
        r is Err ==> bytes_of(*final(dst)) == bytes_of(*old(dst)),
{
    match encode_message(order, sender, opcode, args) {
        Ok(bytes) => {
            bytes_extend(dst, bytes.as_slice());
            Ok(())
        },
        Err(e) => Err(e),
    }
}

/// Bytes passed through to a client as they are.
pub struct RawEvent {
    pub data: Vec<u8>,
}

impl Event for RawEvent {
    open spec fn wire(&self, order: Endian) -> Seq<u8> {
        self.data@
    }

    open spec fn encodable(&self, order: Endian) -> bool {
        true
    }

    fn encode(&self, order: Endian, dst: &mut BytesMut) -> (r: Result<(), EncodeError>) {
        bytes_extend(dst, self.data.as_slice());
        Ok(())
    }
}

} // verus!
