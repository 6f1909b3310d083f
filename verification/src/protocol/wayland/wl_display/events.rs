//! The events of `wl_display`.

use crate::event::{encode_into, Event};
use crate::message::{args_size, args_view, args_wire, blob_wire, lemma_message_bytes, message_wire, padded_len, size_and_opcode, Arg, ArgV, EncodeError};
use crate::wire::{u32_bytes, Endian};
use bytes::BytesMut;
use vstd::prelude::*;
use vstd::utf8::encode_utf8;

verus! {

/// A fatal error on an object.
pub struct Error {
    pub sender_object_id: u32,
    /// `object`
    pub object_id: u32,
    /// `uint`
    pub code: u32,
    /// `string`
    pub message: String,
}

impl Error {
    /// The opcode of this event.
    pub const OPCODE: u16 = 0;

    /// The arguments of this event, in wire order.
    pub open spec fn args(&self) -> Seq<ArgV> {
        seq![ArgV::Object(self.object_id), ArgV::Uint(self.code), ArgV::Str(self.message@)]
    }
}

impl Event for Error {
    open spec fn wire(&self, order: Endian) -> Seq<u8> {
        message_wire(order, self.sender_object_id, 0, self.args())
    }

    open spec fn encodable(&self, order: Endian) -> bool {
        self.wire(order).len() <= 0xffff
    }

    fn encode(&self, order: Endian, dst: &mut BytesMut) -> (r: Result<(), EncodeError>) {
        let mut args: Vec<Arg> = Vec::new();
        args.push(Arg::Object(self.object_id));
        args.push(Arg::Uint(self.code));
        args.push(Arg::Str(self.message.clone()));
        assert(args_view(args@) =~= self.args());
        encode_into(order, self.sender_object_id, 0, &args, dst)
    }
}

/// Acknowledges that an object id may be reused.
pub struct DeleteId {
    pub sender_object_id: u32,
    /// `uint`
    pub id: u32,
}

impl DeleteId {
    /// The opcode of this event.
    pub const OPCODE: u16 = 1;

    /// The arguments of this event, in wire order.
    pub open spec fn args(&self) -> Seq<ArgV> {
        seq![ArgV::Uint(self.id)]
    }
}

impl Event for DeleteId {
    open spec fn wire(&self, order: Endian) -> Seq<u8> {
        message_wire(order, self.sender_object_id, 1, self.args())
    }

    open spec fn encodable(&self, order: Endian) -> bool {
        self.wire(order).len() <= 0xffff
    }

    fn encode(&self, order: Endian, dst: &mut BytesMut) -> (r: Result<(), EncodeError>) {
        let mut args: Vec<Arg> = Vec::new();
        args.push(Arg::Uint(self.id));
        assert(args_view(args@) =~= self.args());
        encode_into(order, self.sender_object_id, 1, &args, dst)
    }
}

/// The bytes of a `error` event: its header (the sender, then its size
/// and opcode 0), then the bytes of its fields in wire order: `object_id`, `code`, `message`.
pub proof fn lemma_error_bytes(order: Endian, e: Error)
    ensures
        e.wire(order) == u32_bytes(order, e.sender_object_id) + u32_bytes(order, size_and_opcode((16 + (4 + padded_len(encode_utf8(e.message@).len() as int))) as int, 0)) + u32_bytes(order, e.object_id) + u32_bytes(order, e.code) + blob_wire(order, (encode_utf8(e.message@).len() + 1) as u32, encode_utf8(e.message@)),
{
    lemma_message_bytes(order, e.sender_object_id, 0, e.args());
    reveal_with_fuel(args_wire, 4);
    reveal_with_fuel(args_size, 4);
    assert(e.args() =~= seq![ArgV::Object(e.object_id), ArgV::Uint(e.code), ArgV::Str(e.message@)]);
    assert(e.args().drop_last() =~= seq![ArgV::Object(e.object_id), ArgV::Uint(e.code)]);
    assert(e.args().drop_last().drop_last() =~= seq![ArgV::Object(e.object_id)]);
    assert(e.args().drop_last().drop_last().drop_last() =~= Seq::<ArgV>::empty());
    assert(e.wire(order) =~= u32_bytes(order, e.sender_object_id) + u32_bytes(order, size_and_opcode((16 + (4 + padded_len(encode_utf8(e.message@).len() as int))) as int, 0)) + u32_bytes(order, e.object_id) + u32_bytes(order, e.code) + blob_wire(order, (encode_utf8(e.message@).len() + 1) as u32, encode_utf8(e.message@)));
}

/// The bytes of a `delete_id` event: its header (the sender, then its size
/// and opcode 1), then the bytes of its fields in wire order: `id`.
pub proof fn lemma_delete_id_bytes(order: Endian, e: DeleteId)
    ensures
        e.wire(order) == u32_bytes(order, e.sender_object_id) + u32_bytes(order, size_and_opcode(12, 1)) + u32_bytes(order, e.id),
{
    lemma_message_bytes(order, e.sender_object_id, 1, e.args());
    reveal_with_fuel(args_wire, 2);
    reveal_with_fuel(args_size, 2);
    assert(e.args() =~= seq![ArgV::Uint(e.id)]);
    assert(e.args().drop_last() =~= Seq::<ArgV>::empty());
    assert(e.wire(order) =~= u32_bytes(order, e.sender_object_id) + u32_bytes(order, size_and_opcode(12, 1)) + u32_bytes(order, e.id));
}

} // verus!
