//! The events of `xdg_popup`.

use crate::event::{encode_into, Event};
use crate::message::{args_size, args_view, args_wire, lemma_message_bytes, message_wire, size_and_opcode, Arg, ArgV, EncodeError};
use crate::wire::{i32_bytes, u32_bytes, Endian};
use bytes::BytesMut;
use vstd::prelude::*;

verus! {

/// Configures the popup surface.
pub struct Configure {
    pub sender_object_id: u32,
    /// `int`
    pub x: i32,
    /// `int`
    pub y: i32,
    /// `int`
    pub width: i32,
    /// `int`
    pub height: i32,
}

impl Configure {
    /// The opcode of this event.
    pub const OPCODE: u16 = 0;

    /// The arguments of this event, in wire order.
    pub open spec fn args(&self) -> Seq<ArgV> {
        seq![ArgV::Int(self.x), ArgV::Int(self.y), ArgV::Int(self.width), ArgV::Int(self.height)]
    }
}

impl Event for Configure {
    open spec fn wire(&self, order: Endian) -> Seq<u8> {
        message_wire(order, self.sender_object_id, 0, self.args())
    }

    open spec fn encodable(&self, order: Endian) -> bool {
        self.wire(order).len() <= 0xffff
    }

    fn encode(&self, order: Endian, dst: &mut BytesMut) -> (r: Result<(), EncodeError>) {
        let mut args: Vec<Arg> = Vec::new();
        args.push(Arg::Int(self.x));
        args.push(Arg::Int(self.y));
        args.push(Arg::Int(self.width));
        args.push(Arg::Int(self.height));
        assert(args_view(args@) =~= self.args());
        encode_into(order, self.sender_object_id, 0, &args, dst)
    }
}

/// The popup was dismissed.
pub struct PopupDone {
    pub sender_object_id: u32,
}

impl PopupDone {
    /// The opcode of this event.
    pub const OPCODE: u16 = 1;

    /// The arguments of this event, in wire order.
    pub open spec fn args(&self) -> Seq<ArgV> {
        Seq::empty()
    }
}

impl Event for PopupDone {
    open spec fn wire(&self, order: Endian) -> Seq<u8> {
        message_wire(order, self.sender_object_id, 1, self.args())
    }

    open spec fn encodable(&self, order: Endian) -> bool {
        self.wire(order).len() <= 0xffff
    }

    fn encode(&self, order: Endian, dst: &mut BytesMut) -> (r: Result<(), EncodeError>) {
        let mut args: Vec<Arg> = Vec::new();
        assert(args_view(args@) =~= self.args());
        encode_into(order, self.sender_object_id, 1, &args, dst)
    }
}

/// The bytes of a `configure` event: its header (the sender, then its size
/// and opcode 0), then the bytes of its fields in wire order: `x`, `y`, `width`, `height`.
pub proof fn lemma_configure_bytes(order: Endian, e: Configure)
    ensures
        e.wire(order) == u32_bytes(order, e.sender_object_id) + u32_bytes(order, size_and_opcode(24, 0)) + i32_bytes(order, e.x) + i32_bytes(order, e.y) + i32_bytes(order, e.width) + i32_bytes(order, e.height),
{
    lemma_message_bytes(order, e.sender_object_id, 0, e.args());
    reveal_with_fuel(args_wire, 5);
    reveal_with_fuel(args_size, 5);
    assert(e.args() =~= seq![ArgV::Int(e.x), ArgV::Int(e.y), ArgV::Int(e.width), ArgV::Int(e.height)]);
    assert(e.args().drop_last() =~= seq![ArgV::Int(e.x), ArgV::Int(e.y), ArgV::Int(e.width)]);
    assert(e.args().drop_last().drop_last() =~= seq![ArgV::Int(e.x), ArgV::Int(e.y)]);
    assert(e.args().drop_last().drop_last().drop_last() =~= seq![ArgV::Int(e.x)]);
    assert(e.args().drop_last().drop_last().drop_last().drop_last() =~= Seq::<ArgV>::empty());
    assert(e.wire(order) =~= u32_bytes(order, e.sender_object_id) + u32_bytes(order, size_and_opcode(24, 0)) + i32_bytes(order, e.x) + i32_bytes(order, e.y) + i32_bytes(order, e.width) + i32_bytes(order, e.height));
}

/// The bytes of a `popup_done` event are its header alone: the sender, then
/// the size 8 and opcode 1.
pub proof fn lemma_popup_done_bytes(order: Endian, e: PopupDone)
    ensures
        e.wire(order) == u32_bytes(order, e.sender_object_id) + u32_bytes(order, size_and_opcode(8, 1)),
{
    lemma_message_bytes(order, e.sender_object_id, 1, e.args());
    reveal_with_fuel(args_wire, 1);
    reveal_with_fuel(args_size, 1);
    assert(e.args() =~= Seq::<ArgV>::empty());
    assert(e.wire(order) =~= u32_bytes(order, e.sender_object_id) + u32_bytes(order, size_and_opcode(8, 1)));
}

} // verus!
