//! The events of `wl_callback`.

use crate::event::{encode_into, Event};
use crate::message::{args_size, args_view, args_wire, lemma_message_bytes, message_wire, size_and_opcode, Arg, ArgV, EncodeError};
use crate::wire::{u32_bytes, Endian};
use bytes::BytesMut;
use vstd::prelude::*;

verus! {

/// The callback fired.
pub struct Done {
    pub sender_object_id: u32,
    /// `uint`
    pub callback_data: u32,
}

impl Done {
    /// The opcode of this event.
    pub const OPCODE: u16 = 0;

    /// The arguments of this event, in wire order.
    pub open spec fn args(&self) -> Seq<ArgV> {
        seq![ArgV::Uint(self.callback_data)]
    }
}

impl Event for Done {
    open spec fn wire(&self, order: Endian) -> Seq<u8> {
        message_wire(order, self.sender_object_id, 0, self.args())
    }

    open spec fn encodable(&self, order: Endian) -> bool {
        self.wire(order).len() <= 0xffff
    }

    fn encode(&self, order: Endian, dst: &mut BytesMut) -> (r: Result<(), EncodeError>) {
        let mut args: Vec<Arg> = Vec::new();
        args.push(Arg::Uint(self.callback_data));
        assert(args_view(args@) =~= self.args());
        encode_into(order, self.sender_object_id, 0, &args, dst)
    }
}

/// The bytes of a `done` event: its header (the sender, then its size
/// and opcode 0), then the bytes of its fields in wire order: `callback_data`.
pub proof fn lemma_done_bytes(order: Endian, e: Done)
    ensures
        e.wire(order) == u32_bytes(order, e.sender_object_id) + u32_bytes(order, size_and_opcode(12, 0)) + u32_bytes(order, e.callback_data),
{
    lemma_message_bytes(order, e.sender_object_id, 0, e.args());
    reveal_with_fuel(args_wire, 2);
    reveal_with_fuel(args_size, 2);
    assert(e.args() =~= seq![ArgV::Uint(e.callback_data)]);
    assert(e.args().drop_last() =~= Seq::<ArgV>::empty());
    assert(e.wire(order) =~= u32_bytes(order, e.sender_object_id) + u32_bytes(order, size_and_opcode(12, 0)) + u32_bytes(order, e.callback_data));
}

} // verus!
