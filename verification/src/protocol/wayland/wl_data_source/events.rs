//! The events of `wl_data_source`.

use crate::event::{encode_into, Event};
use crate::message::{args_size, args_view, args_wire, blob_wire, lemma_message_bytes, message_wire, padded_len, size_and_opcode, Arg, ArgV, EncodeError};
use crate::wire::{i32_bytes, u32_bytes, Endian};
use bytes::BytesMut;
use vstd::prelude::*;
use vstd::utf8::encode_utf8;

verus! {

/// A target accepts an offered mime type.
pub struct Target {
    pub sender_object_id: u32,
    /// `string`
    pub mime_type: String,
}

impl Target {
    /// The opcode of this event.
    pub const OPCODE: u16 = 0;

    /// The arguments of this event, in wire order.
    pub open spec fn args(&self) -> Seq<ArgV> {
        seq![ArgV::StrUncounted(self.mime_type@)]
    }
}

impl Event for Target {
    open spec fn wire(&self, order: Endian) -> Seq<u8> {
        message_wire(order, self.sender_object_id, 0, self.args())
    }

    open spec fn encodable(&self, order: Endian) -> bool {
        self.wire(order).len() <= 0xffff
    }

    fn encode(&self, order: Endian, dst: &mut BytesMut) -> (r: Result<(), EncodeError>) {
        let mut args: Vec<Arg> = Vec::new();
        args.push(Arg::StrUncounted(self.mime_type.clone()));
        assert(args_view(args@) =~= self.args());
        encode_into(order, self.sender_object_id, 0, &args, dst)
    }
}

/// Request for data from the client.
pub struct Send {
    pub sender_object_id: u32,
    /// `string`
    pub mime_type: String,
    /// `fd`
    pub fd: i32,
}

impl Send {
    /// The opcode of this event.
    pub const OPCODE: u16 = 1;

    /// The arguments of this event, in wire order.
    pub open spec fn args(&self) -> Seq<ArgV> {
        seq![ArgV::StrUncounted(self.mime_type@), ArgV::Fd(self.fd)]
    }
}

impl Event for Send {
    open spec fn wire(&self, order: Endian) -> Seq<u8> {
        message_wire(order, self.sender_object_id, 1, self.args())
    }

    open spec fn encodable(&self, order: Endian) -> bool {
        self.wire(order).len() <= 0xffff
    }

    fn encode(&self, order: Endian, dst: &mut BytesMut) -> (r: Result<(), EncodeError>) {
        let mut args: Vec<Arg> = Vec::new();
        args.push(Arg::StrUncounted(self.mime_type.clone()));
        args.push(Arg::Fd(self.fd));
        assert(args_view(args@) =~= self.args());
        encode_into(order, self.sender_object_id, 1, &args, dst)
    }
}

/// The selection was cancelled.
pub struct Cancelled {
    pub sender_object_id: u32,
}

impl Cancelled {
    /// The opcode of this event.
    pub const OPCODE: u16 = 2;

    /// The arguments of this event, in wire order.
    pub open spec fn args(&self) -> Seq<ArgV> {
        Seq::empty()
    }
}

impl Event for Cancelled {
    open spec fn wire(&self, order: Endian) -> Seq<u8> {
        message_wire(order, self.sender_object_id, 2, self.args())
    }

    open spec fn encodable(&self, order: Endian) -> bool {
        self.wire(order).len() <= 0xffff
    }

    fn encode(&self, order: Endian, dst: &mut BytesMut) -> (r: Result<(), EncodeError>) {
        let mut args: Vec<Arg> = Vec::new();
        assert(args_view(args@) =~= self.args());
        encode_into(order, self.sender_object_id, 2, &args, dst)
    }
}

/// The drag-and-drop operation was physically performed.
pub struct DndDropPerformed {
    pub sender_object_id: u32,
}

impl DndDropPerformed {
    /// The opcode of this event.
    pub const OPCODE: u16 = 3;

    /// The arguments of this event, in wire order.
    pub open spec fn args(&self) -> Seq<ArgV> {
        Seq::empty()
    }
}

impl Event for DndDropPerformed {
    open spec fn wire(&self, order: Endian) -> Seq<u8> {
        message_wire(order, self.sender_object_id, 3, self.args())
    }

    open spec fn encodable(&self, order: Endian) -> bool {
        self.wire(order).len() <= 0xffff
    }

    fn encode(&self, order: Endian, dst: &mut BytesMut) -> (r: Result<(), EncodeError>) {
        let mut args: Vec<Arg> = Vec::new();
        assert(args_view(args@) =~= self.args());
        encode_into(order, self.sender_object_id, 3, &args, dst)
    }
}

/// The drag-and-drop operation concluded.
pub struct DndFinished {
    pub sender_object_id: u32,
}

impl DndFinished {
    /// The opcode of this event.
    pub const OPCODE: u16 = 4;

    /// The arguments of this event, in wire order.
    pub open spec fn args(&self) -> Seq<ArgV> {
        Seq::empty()
    }
}

impl Event for DndFinished {
    open spec fn wire(&self, order: Endian) -> Seq<u8> {
        message_wire(order, self.sender_object_id, 4, self.args())
    }

    open spec fn encodable(&self, order: Endian) -> bool {
        self.wire(order).len() <= 0xffff
    }

    fn encode(&self, order: Endian, dst: &mut BytesMut) -> (r: Result<(), EncodeError>) {
        let mut args: Vec<Arg> = Vec::new();
        assert(args_view(args@) =~= self.args());
        encode_into(order, self.sender_object_id, 4, &args, dst)
    }
}

/// Notifies the selected action.
pub struct Action {
    pub sender_object_id: u32,
    /// `uint`
    pub dnd_action: u32,
}

impl Action {
    /// The opcode of this event.
    pub const OPCODE: u16 = 5;

    /// The arguments of this event, in wire order.
    pub open spec fn args(&self) -> Seq<ArgV> {
        seq![ArgV::Uint(self.dnd_action)]
    }
}

impl Event for Action {
    open spec fn wire(&self, order: Endian) -> Seq<u8> {
        message_wire(order, self.sender_object_id, 5, self.args())
    }

    open spec fn encodable(&self, order: Endian) -> bool {
        self.wire(order).len() <= 0xffff
    }

    fn encode(&self, order: Endian, dst: &mut BytesMut) -> (r: Result<(), EncodeError>) {
        let mut args: Vec<Arg> = Vec::new();
        args.push(Arg::Uint(self.dnd_action));
        assert(args_view(args@) =~= self.args());
        encode_into(order, self.sender_object_id, 5, &args, dst)
    }
}

/// The bytes of a `target` event: its header (the sender, then its size
/// and opcode 0), then the bytes of its fields in wire order: `mime_type`.
pub proof fn lemma_target_bytes(order: Endian, e: Target)
    ensures
        e.wire(order) == u32_bytes(order, e.sender_object_id) + u32_bytes(order, size_and_opcode((8 + (4 + padded_len(encode_utf8(e.mime_type@).len() as int))) as int, 0)) + blob_wire(order, encode_utf8(e.mime_type@).len() as u32, encode_utf8(e.mime_type@)),
{
    lemma_message_bytes(order, e.sender_object_id, 0, e.args());
    reveal_with_fuel(args_wire, 2);
    reveal_with_fuel(args_size, 2);
    assert(e.args() =~= seq![ArgV::StrUncounted(e.mime_type@)]);
    assert(e.args().drop_last() =~= Seq::<ArgV>::empty());
    assert(e.wire(order) =~= u32_bytes(order, e.sender_object_id) + u32_bytes(order, size_and_opcode((8 + (4 + padded_len(encode_utf8(e.mime_type@).len() as int))) as int, 0)) + blob_wire(order, encode_utf8(e.mime_type@).len() as u32, encode_utf8(e.mime_type@)));
}

/// The bytes of a `send` event: its header (the sender, then its size
/// and opcode 1), then the bytes of its fields in wire order: `mime_type`, `fd`.
pub proof fn lemma_send_bytes(order: Endian, e: Send)
    ensures
        e.wire(order) == u32_bytes(order, e.sender_object_id) + u32_bytes(order, size_and_opcode((12 + (4 + padded_len(encode_utf8(e.mime_type@).len() as int))) as int, 1)) + blob_wire(order, encode_utf8(e.mime_type@).len() as u32, encode_utf8(e.mime_type@)) + i32_bytes(order, e.fd),
{
    lemma_message_bytes(order, e.sender_object_id, 1, e.args());
    reveal_with_fuel(args_wire, 3);
    reveal_with_fuel(args_size, 3);
    assert(e.args() =~= seq![ArgV::StrUncounted(e.mime_type@), ArgV::Fd(e.fd)]);
    assert(e.args().drop_last() =~= seq![ArgV::StrUncounted(e.mime_type@)]);
    assert(e.args().drop_last().drop_last() =~= Seq::<ArgV>::empty());
    assert(e.wire(order) =~= u32_bytes(order, e.sender_object_id) + u32_bytes(order, size_and_opcode((12 + (4 + padded_len(encode_utf8(e.mime_type@).len() as int))) as int, 1)) + blob_wire(order, encode_utf8(e.mime_type@).len() as u32, encode_utf8(e.mime_type@)) + i32_bytes(order, e.fd));
}

/// The bytes of a `cancelled` event are its header alone: the sender, then
/// the size 8 and opcode 2.
pub proof fn lemma_cancelled_bytes(order: Endian, e: Cancelled)
    ensures
        e.wire(order) == u32_bytes(order, e.sender_object_id) + u32_bytes(order, size_and_opcode(8, 2)),
{
    lemma_message_bytes(order, e.sender_object_id, 2, e.args());
    reveal_with_fuel(args_wire, 1);
    reveal_with_fuel(args_size, 1);
    assert(e.args() =~= Seq::<ArgV>::empty());
    assert(e.wire(order) =~= u32_bytes(order, e.sender_object_id) + u32_bytes(order, size_and_opcode(8, 2)));
}

/// The bytes of a `dnd_drop_performed` event are its header alone: the sender, then
/// the size 8 and opcode 3.
pub proof fn lemma_dnd_drop_performed_bytes(order: Endian, e: DndDropPerformed)
    ensures
        e.wire(order) == u32_bytes(order, e.sender_object_id) + u32_bytes(order, size_and_opcode(8, 3)),
{
    lemma_message_bytes(order, e.sender_object_id, 3, e.args());
    reveal_with_fuel(args_wire, 1);
    reveal_with_fuel(args_size, 1);
    assert(e.args() =~= Seq::<ArgV>::empty());
    assert(e.wire(order) =~= u32_bytes(order, e.sender_object_id) + u32_bytes(order, size_and_opcode(8, 3)));
}

/// The bytes of a `dnd_finished` event are its header alone: the sender, then
/// the size 8 and opcode 4.
pub proof fn lemma_dnd_finished_bytes(order: Endian, e: DndFinished)
    ensures
        e.wire(order) == u32_bytes(order, e.sender_object_id) + u32_bytes(order, size_and_opcode(8, 4)),
{
    lemma_message_bytes(order, e.sender_object_id, 4, e.args());
    reveal_with_fuel(args_wire, 1);
    reveal_with_fuel(args_size, 1);
    assert(e.args() =~= Seq::<ArgV>::empty());
    assert(e.wire(order) =~= u32_bytes(order, e.sender_object_id) + u32_bytes(order, size_and_opcode(8, 4)));
}

/// The bytes of a `action` event: its header (the sender, then its size
/// and opcode 5), then the bytes of its fields in wire order: `dnd_action`.
pub proof fn lemma_action_bytes(order: Endian, e: Action)
    ensures
        e.wire(order) == u32_bytes(order, e.sender_object_id) + u32_bytes(order, size_and_opcode(12, 5)) + u32_bytes(order, e.dnd_action),
{
    lemma_message_bytes(order, e.sender_object_id, 5, e.args());
    reveal_with_fuel(args_wire, 2);
    reveal_with_fuel(args_size, 2);
    assert(e.args() =~= seq![ArgV::Uint(e.dnd_action)]);
    assert(e.args().drop_last() =~= Seq::<ArgV>::empty());
    assert(e.wire(order) =~= u32_bytes(order, e.sender_object_id) + u32_bytes(order, size_and_opcode(12, 5)) + u32_bytes(order, e.dnd_action));
}

} // verus!
