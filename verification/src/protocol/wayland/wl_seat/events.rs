//! The events of `wl_seat`.

use crate::event::{encode_into, Event};
use crate::message::{args_size, args_view, args_wire, blob_wire, lemma_message_bytes, message_wire, padded_len, size_and_opcode, Arg, ArgV, EncodeError};
use crate::wire::{u32_bytes, Endian};
use bytes::BytesMut;
use vstd::prelude::*;
use vstd::utf8::encode_utf8;

verus! {

/// The seat's capabilities changed.
pub struct Capabilities {
    pub sender_object_id: u32,
    /// `uint`
    pub capabilities: u32,
}

impl Capabilities {
    /// The opcode of this event.
    pub const OPCODE: u16 = 0;

    /// The arguments of this event, in wire order.
    pub open spec fn args(&self) -> Seq<ArgV> {
        seq![ArgV::Uint(self.capabilities)]
    }
}

impl Event for Capabilities {
    open spec fn wire(&self, order: Endian) -> Seq<u8> {
        message_wire(order, self.sender_object_id, 0, self.args())
    }

    open spec fn encodable(&self, order: Endian) -> bool {
        self.wire(order).len() <= 0xffff
    }

    fn encode(&self, order: Endian, dst: &mut BytesMut) -> (r: Result<(), EncodeError>) {
        let mut args: Vec<Arg> = Vec::new();
        args.push(Arg::Uint(self.capabilities));
        assert(args_view(args@) =~= self.args());
        encode_into(order, self.sender_object_id, 0, &args, dst)
    }
}

/// The unique identifier of this seat.
pub struct Name {
    pub sender_object_id: u32,
    /// `string`
    pub name: String,
}

impl Name {
    /// The opcode of this event.
    pub const OPCODE: u16 = 1;

    /// The arguments of this event, in wire order.
    pub open spec fn args(&self) -> Seq<ArgV> {
        seq![ArgV::StrUncounted(self.name@)]
    }
}

impl Event for Name {
    open spec fn wire(&self, order: Endian) -> Seq<u8> {
        message_wire(order, self.sender_object_id, 1, self.args())
    }

    open spec fn encodable(&self, order: Endian) -> bool {
        self.wire(order).len() <= 0xffff
    }

    fn encode(&self, order: Endian, dst: &mut BytesMut) -> (r: Result<(), EncodeError>) {
        let mut args: Vec<Arg> = Vec::new();
        args.push(Arg::StrUncounted(self.name.clone()));
        assert(args_view(args@) =~= self.args());
        encode_into(order, self.sender_object_id, 1, &args, dst)
    }
}

/// The bytes of a `capabilities` event: its header (the sender, then its size
/// and opcode 0), then the bytes of its fields in wire order: `capabilities`.
pub proof fn lemma_capabilities_bytes(order: Endian, e: Capabilities)
    ensures
        e.wire(order) == u32_bytes(order, e.sender_object_id) + u32_bytes(order, size_and_opcode(12, 0)) + u32_bytes(order, e.capabilities),
{
    lemma_message_bytes(order, e.sender_object_id, 0, e.args());
    reveal_with_fuel(args_wire, 2);
    reveal_with_fuel(args_size, 2);
    assert(e.args() =~= seq![ArgV::Uint(e.capabilities)]);
    assert(e.args().drop_last() =~= Seq::<ArgV>::empty());
    assert(e.wire(order) =~= u32_bytes(order, e.sender_object_id) + u32_bytes(order, size_and_opcode(12, 0)) + u32_bytes(order, e.capabilities));
}

/// The bytes of a `name` event: its header (the sender, then its size
/// and opcode 1), then the bytes of its fields in wire order: `name`.
pub proof fn lemma_name_bytes(order: Endian, e: Name)
    ensures
        e.wire(order) == u32_bytes(order, e.sender_object_id) + u32_bytes(order, size_and_opcode((8 + (4 + padded_len(encode_utf8(e.name@).len() as int))) as int, 1)) + blob_wire(order, encode_utf8(e.name@).len() as u32, encode_utf8(e.name@)),
{
    lemma_message_bytes(order, e.sender_object_id, 1, e.args());
    reveal_with_fuel(args_wire, 2);
    reveal_with_fuel(args_size, 2);
    assert(e.args() =~= seq![ArgV::StrUncounted(e.name@)]);
    assert(e.args().drop_last() =~= Seq::<ArgV>::empty());
    assert(e.wire(order) =~= u32_bytes(order, e.sender_object_id) + u32_bytes(order, size_and_opcode((8 + (4 + padded_len(encode_utf8(e.name@).len() as int))) as int, 1)) + blob_wire(order, encode_utf8(e.name@).len() as u32, encode_utf8(e.name@)));
}

} // verus!
