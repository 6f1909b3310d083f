//! The events of `wl_registry`.

use crate::event::{encode_into, Event};
use crate::message::{args_size, args_view, args_wire, blob_wire, lemma_message_bytes, message_wire, padded_len, size_and_opcode, Arg, ArgV, EncodeError};
use crate::wire::{u32_bytes, Endian};
use bytes::BytesMut;
use vstd::prelude::*;
use vstd::utf8::encode_utf8;

verus! {

/// Announces a global object.
pub struct Global {
    pub sender_object_id: u32,
    /// `uint`
    pub name: u32,
    /// `string`
    pub interface: String,
    /// `uint`
    pub version: u32,
}

impl Global {
    /// The opcode of this event.
    pub const OPCODE: u16 = 0;

    /// The arguments of this event, in wire order.
    pub open spec fn args(&self) -> Seq<ArgV> {
        seq![ArgV::Uint(self.name), ArgV::Str(self.interface@), ArgV::Uint(self.version)]
    }
}

impl Event for Global {
    open spec fn wire(&self, order: Endian) -> Seq<u8> {
        message_wire(order, self.sender_object_id, 0, self.args())
    }

    open spec fn encodable(&self, order: Endian) -> bool {
        self.wire(order).len() <= 0xffff
    }

    fn encode(&self, order: Endian, dst: &mut BytesMut) -> (r: Result<(), EncodeError>) {
        let mut args: Vec<Arg> = Vec::new();
        args.push(Arg::Uint(self.name));
        args.push(Arg::Str(self.interface.clone()));
        args.push(Arg::Uint(self.version));
        assert(args_view(args@) =~= self.args());
        encode_into(order, self.sender_object_id, 0, &args, dst)
    }
}

/// Announces that a global object went away.
pub struct GlobalRemove {
    pub sender_object_id: u32,
    /// `uint`
    pub name: u32,
}

impl GlobalRemove {
    /// The opcode of this event.
    pub const OPCODE: u16 = 1;

    /// The arguments of this event, in wire order.
    pub open spec fn args(&self) -> Seq<ArgV> {
        seq![ArgV::Uint(self.name)]
    }
}

impl Event for GlobalRemove {
    open spec fn wire(&self, order: Endian) -> Seq<u8> {
        message_wire(order, self.sender_object_id, 1, self.args())
    }

    open spec fn encodable(&self, order: Endian) -> bool {
        self.wire(order).len() <= 0xffff
    }

    fn encode(&self, order: Endian, dst: &mut BytesMut) -> (r: Result<(), EncodeError>) {
        let mut args: Vec<Arg> = Vec::new();
        args.push(Arg::Uint(self.name));
        assert(args_view(args@) =~= self.args());
        encode_into(order, self.sender_object_id, 1, &args, dst)
    }
}

/// The bytes of a `global` event: its header (the sender, then its size
/// and opcode 0), then the bytes of its fields in wire order: `name`, `interface`, `version`.
pub proof fn lemma_global_bytes(order: Endian, e: Global)
    ensures
        e.wire(order) == u32_bytes(order, e.sender_object_id) + u32_bytes(order, size_and_opcode((16 + (4 + padded_len(encode_utf8(e.interface@).len() as int))) as int, 0)) + u32_bytes(order, e.name) + blob_wire(order, (encode_utf8(e.interface@).len() + 1) as u32, encode_utf8(e.interface@)) + u32_bytes(order, e.version),
{
    lemma_message_bytes(order, e.sender_object_id, 0, e.args());
    reveal_with_fuel(args_wire, 4);
    reveal_with_fuel(args_size, 4);
    assert(e.args() =~= seq![ArgV::Uint(e.name), ArgV::Str(e.interface@), ArgV::Uint(e.version)]);
    assert(e.args().drop_last() =~= seq![ArgV::Uint(e.name), ArgV::Str(e.interface@)]);
    assert(e.args().drop_last().drop_last() =~= seq![ArgV::Uint(e.name)]);
    assert(e.args().drop_last().drop_last().drop_last() =~= Seq::<ArgV>::empty());
    assert(e.wire(order) =~= u32_bytes(order, e.sender_object_id) + u32_bytes(order, size_and_opcode((16 + (4 + padded_len(encode_utf8(e.interface@).len() as int))) as int, 0)) + u32_bytes(order, e.name) + blob_wire(order, (encode_utf8(e.interface@).len() + 1) as u32, encode_utf8(e.interface@)) + u32_bytes(order, e.version));
}

/// The bytes of a `global_remove` event: its header (the sender, then its size
/// and opcode 1), then the bytes of its fields in wire order: `name`.
pub proof fn lemma_global_remove_bytes(order: Endian, e: GlobalRemove)
    ensures
        e.wire(order) == u32_bytes(order, e.sender_object_id) + u32_bytes(order, size_and_opcode(12, 1)) + u32_bytes(order, e.name),
{
    lemma_message_bytes(order, e.sender_object_id, 1, e.args());
    reveal_with_fuel(args_wire, 2);
    reveal_with_fuel(args_size, 2);
    assert(e.args() =~= seq![ArgV::Uint(e.name)]);
    assert(e.args().drop_last() =~= Seq::<ArgV>::empty());
    assert(e.wire(order) =~= u32_bytes(order, e.sender_object_id) + u32_bytes(order, size_and_opcode(12, 1)) + u32_bytes(order, e.name));
}

} // verus!
