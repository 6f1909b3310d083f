//! The events of `xdg_toplevel`.

use crate::event::{encode_into, Event};
use crate::message::{args_size, args_view, args_wire, blob_wire, copy_bytes, lemma_message_bytes, message_wire, padded_len, size_and_opcode, Arg, ArgV, EncodeError};
use crate::wire::{i32_bytes, u32_bytes, Endian};
use bytes::BytesMut;
use vstd::prelude::*;

verus! {

/// Suggests a surface change.
pub struct Configure {
    pub sender_object_id: u32,
    /// `int`
    pub width: i32,
    /// `int`
    pub height: i32,
    /// `array`
    pub states: Vec<u8>,
}

impl Configure {
    /// The opcode of this event.
    pub const OPCODE: u16 = 0;

    /// The arguments of this event, in wire order.
    pub open spec fn args(&self) -> Seq<ArgV> {
        seq![ArgV::Int(self.width), ArgV::Int(self.height), ArgV::Array(self.states@)]
    }
}

impl Event for Configure {
    open spec fn wire(&self, order: Endian) -> Seq<u8> {
        message_wire(order, self.sender_object_id, 0, self.args())
    }

    open spec fn encodable(&self, order: Endian) -> bool {
        self.wire(order).len() <= 0xffff
    }

    fn encode(&self, order: Endian, dst: &mut BytesMut) -> (r: Result<(), EncodeError>) {
        let mut args: Vec<Arg> = Vec::new();
        args.push(Arg::Int(self.width));
        args.push(Arg::Int(self.height));
        args.push(Arg::Array(copy_bytes(&self.states)));
        assert(args_view(args@) =~= self.args());
        encode_into(order, self.sender_object_id, 0, &args, dst)
    }
}

/// The surface wants to be closed.
pub struct Close {
    pub sender_object_id: u32,
}

impl Close {
    /// The opcode of this event.
    pub const OPCODE: u16 = 1;

    /// The arguments of this event, in wire order.
    pub open spec fn args(&self) -> Seq<ArgV> {
        Seq::empty()
    }
}

impl Event for Close {
    open spec fn wire(&self, order: Endian) -> Seq<u8> {
        message_wire(order, self.sender_object_id, 1, self.args())
    }

    open spec fn encodable(&self, order: Endian) -> bool {
        self.wire(order).len() <= 0xffff
    }

    fn encode(&self, order: Endian, dst: &mut BytesMut) -> (r: Result<(), EncodeError>) {
        let mut args: Vec<Arg> = Vec::new();
        assert(args_view(args@) =~= self.args());
        encode_into(order, self.sender_object_id, 1, &args, dst)
    }
}

/// The bytes of a `configure` event: its header (the sender, then its size
/// and opcode 0), then the bytes of its fields in wire order: `width`, `height`, `states`.
pub proof fn lemma_configure_bytes(order: Endian, e: Configure)
    ensures
        e.wire(order) == u32_bytes(order, e.sender_object_id) + u32_bytes(order, size_and_opcode((16 + (4 + padded_len(e.states@.len() as int))) as int, 0)) + i32_bytes(order, e.width) + i32_bytes(order, e.height) + blob_wire(order, e.states@.len() as u32, e.states@),
{
    lemma_message_bytes(order, e.sender_object_id, 0, e.args());
    reveal_with_fuel(args_wire, 4);
    reveal_with_fuel(args_size, 4);
    assert(e.args() =~= seq![ArgV::Int(e.width), ArgV::Int(e.height), ArgV::Array(e.states@)]);
    assert(e.args().drop_last() =~= seq![ArgV::Int(e.width), ArgV::Int(e.height)]);
    assert(e.args().drop_last().drop_last() =~= seq![ArgV::Int(e.width)]);
    assert(e.args().drop_last().drop_last().drop_last() =~= Seq::<ArgV>::empty());
    assert(e.wire(order) =~= u32_bytes(order, e.sender_object_id) + u32_bytes(order, size_and_opcode((16 + (4 + padded_len(e.states@.len() as int))) as int, 0)) + i32_bytes(order, e.width) + i32_bytes(order, e.height) + blob_wire(order, e.states@.len() as u32, e.states@));
}

/// The bytes of a `close` event are its header alone: the sender, then
/// the size 8 and opcode 1.
pub proof fn lemma_close_bytes(order: Endian, e: Close)
    ensures
        e.wire(order) == u32_bytes(order, e.sender_object_id) + u32_bytes(order, size_and_opcode(8, 1)),
{
    lemma_message_bytes(order, e.sender_object_id, 1, e.args());
    reveal_with_fuel(args_wire, 1);
    reveal_with_fuel(args_size, 1);
    assert(e.args() =~= Seq::<ArgV>::empty());
    assert(e.wire(order) =~= u32_bytes(order, e.sender_object_id) + u32_bytes(order, size_and_opcode(8, 1)));
}

} // verus!
