//! The events of `wl_shm`.

use crate::event::{encode_into, Event};
use crate::message::{args_size, args_view, args_wire, lemma_message_bytes, message_wire, size_and_opcode, Arg, ArgV, EncodeError};
use crate::wire::{u32_bytes, Endian};
use bytes::BytesMut;
use vstd::prelude::*;

verus! {

/// Announces a pixel format that buffers may use.
pub struct Format {
    pub sender_object_id: u32,
    /// `uint`
    pub format: u32,
}

impl Format {
    /// The opcode of this event.
    pub const OPCODE: u16 = 0;

    /// The arguments of this event, in wire order.
    pub open spec fn args(&self) -> Seq<ArgV> {
        seq![ArgV::Uint(self.format)]
    }
}

impl Event for Format {
    open spec fn wire(&self, order: Endian) -> Seq<u8> {
        message_wire(order, self.sender_object_id, 0, self.args())
    }

    open spec fn encodable(&self, order: Endian) -> bool {
        self.wire(order).len() <= 0xffff
    }

    fn encode(&self, order: Endian, dst: &mut BytesMut) -> (r: Result<(), EncodeError>) {
        let mut args: Vec<Arg> = Vec::new();
        args.push(Arg::Uint(self.format));
        assert(args_view(args@) =~= self.args());
        encode_into(order, self.sender_object_id, 0, &args, dst)
    }
}

/// The bytes of a `format` event: its header (the sender, then its size
/// and opcode 0), then the bytes of its fields in wire order: `format`.
pub proof fn lemma_format_bytes(order: Endian, e: Format)
    ensures
        e.wire(order) == u32_bytes(order, e.sender_object_id) + u32_bytes(order, size_and_opcode(12, 0)) + u32_bytes(order, e.format),
{
    lemma_message_bytes(order, e.sender_object_id, 0, e.args());
    reveal_with_fuel(args_wire, 2);
    reveal_with_fuel(args_size, 2);
    assert(e.args() =~= seq![ArgV::Uint(e.format)]);
    assert(e.args().drop_last() =~= Seq::<ArgV>::empty());
    assert(e.wire(order) =~= u32_bytes(order, e.sender_object_id) + u32_bytes(order, size_and_opcode(12, 0)) + u32_bytes(order, e.format));
}

} // verus!
