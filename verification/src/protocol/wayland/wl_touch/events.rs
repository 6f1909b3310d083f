//! The events of `wl_touch`.

use crate::event::{encode_into, Event};
use crate::message::{args_size, args_view, args_wire, lemma_message_bytes, message_wire, size_and_opcode, Arg, ArgV, EncodeError};
use crate::wire::{i32_bytes, u32_bytes, Endian};
use bytes::BytesMut;
use vstd::prelude::*;

verus! {

/// A new touch point.
pub struct Down {
    pub sender_object_id: u32,
    /// `uint`
    pub serial: u32,
    /// `uint`
    pub time: u32,
    /// `object`
    pub surface: u32,
    /// `int`
    pub id: i32,
    /// `fixed`
    pub x: u32,
    /// `fixed`
    pub y: u32,
}

impl Down {
    /// The opcode of this event.
    pub const OPCODE: u16 = 0;

    /// The arguments of this event, in wire order.
    pub open spec fn args(&self) -> Seq<ArgV> {
        seq![ArgV::Uint(self.serial), ArgV::Uint(self.time), ArgV::Object(self.surface), ArgV::Int(self.id), ArgV::Fixed(self.x), ArgV::Fixed(self.y)]
    }
}

impl Event for Down {
    open spec fn wire(&self, order: Endian) -> Seq<u8> {
        message_wire(order, self.sender_object_id, 0, self.args())
    }

    open spec fn encodable(&self, order: Endian) -> bool {
        self.wire(order).len() <= 0xffff
    }

    fn encode(&self, order: Endian, dst: &mut BytesMut) -> (r: Result<(), EncodeError>) {
        let mut args: Vec<Arg> = Vec::new();
        args.push(Arg::Uint(self.serial));
        args.push(Arg::Uint(self.time));
        args.push(Arg::Object(self.surface));
        args.push(Arg::Int(self.id));
        args.push(Arg::Fixed(self.x));
        args.push(Arg::Fixed(self.y));
        assert(args_view(args@) =~= self.args());
        encode_into(order, self.sender_object_id, 0, &args, dst)
    }
}

/// The end of a touch point.
pub struct Up {
    pub sender_object_id: u32,
    /// `uint`
    pub serial: u32,
    /// `uint`
    pub time: u32,
    /// `int`
    pub id: i32,
}

impl Up {
    /// The opcode of this event.
    pub const OPCODE: u16 = 1;

    /// The arguments of this event, in wire order.
    pub open spec fn args(&self) -> Seq<ArgV> {
        seq![ArgV::Uint(self.serial), ArgV::Uint(self.time), ArgV::Int(self.id)]
    }
}

impl Event for Up {
    open spec fn wire(&self, order: Endian) -> Seq<u8> {
        message_wire(order, self.sender_object_id, 1, self.args())
    }

    open spec fn encodable(&self, order: Endian) -> bool {
        self.wire(order).len() <= 0xffff
    }

    fn encode(&self, order: Endian, dst: &mut BytesMut) -> (r: Result<(), EncodeError>) {
        let mut args: Vec<Arg> = Vec::new();
        args.push(Arg::Uint(self.serial));
        args.push(Arg::Uint(self.time));
        args.push(Arg::Int(self.id));
        assert(args_view(args@) =~= self.args());
        encode_into(order, self.sender_object_id, 1, &args, dst)
    }
}

/// A touch point moved.
pub struct Motion {
    pub sender_object_id: u32,
    /// `uint`
    pub time: u32,
    /// `int`
    pub id: i32,
    /// `fixed`
    pub x: u32,
    /// `fixed`
    pub y: u32,
}

impl Motion {
    /// The opcode of this event.
    pub const OPCODE: u16 = 2;

    /// The arguments of this event, in wire order.
    pub open spec fn args(&self) -> Seq<ArgV> {
        seq![ArgV::Uint(self.time), ArgV::Int(self.id), ArgV::Fixed(self.x), ArgV::Fixed(self.y)]
    }
}

impl Event for Motion {
    open spec fn wire(&self, order: Endian) -> Seq<u8> {
        message_wire(order, self.sender_object_id, 2, self.args())
    }

    open spec fn encodable(&self, order: Endian) -> bool {
        self.wire(order).len() <= 0xffff
    }

    fn encode(&self, order: Endian, dst: &mut BytesMut) -> (r: Result<(), EncodeError>) {
        let mut args: Vec<Arg> = Vec::new();
        args.push(Arg::Uint(self.time));
        args.push(Arg::Int(self.id));
        args.push(Arg::Fixed(self.x));
        args.push(Arg::Fixed(self.y));
        assert(args_view(args@) =~= self.args());
        encode_into(order, self.sender_object_id, 2, &args, dst)
    }
}

/// The end of a touch frame.
pub struct Frame {
    pub sender_object_id: u32,
}

impl Frame {
    /// The opcode of this event.
    pub const OPCODE: u16 = 3;

    /// The arguments of this event, in wire order.
    pub open spec fn args(&self) -> Seq<ArgV> {
        Seq::empty()
    }
}

impl Event for Frame {
    open spec fn wire(&self, order: Endian) -> Seq<u8> {
        message_wire(order, self.sender_object_id, 3, self.args())
    }

    open spec fn encodable(&self, order: Endian) -> bool {
        self.wire(order).len() <= 0xffff
    }

    fn encode(&self, order: Endian, dst: &mut BytesMut) -> (r: Result<(), EncodeError>) {
        let mut args: Vec<Arg> = Vec::new();
        assert(args_view(args@) =~= self.args());
        encode_into(order, self.sender_object_id, 3, &args, dst)
    }
}

/// The touch session was cancelled.
pub struct Cancel {
    pub sender_object_id: u32,
}

impl Cancel {
    /// The opcode of this event.
    pub const OPCODE: u16 = 4;

    /// The arguments of this event, in wire order.
    pub open spec fn args(&self) -> Seq<ArgV> {
        Seq::empty()
    }
}

impl Event for Cancel {
    open spec fn wire(&self, order: Endian) -> Seq<u8> {
        message_wire(order, self.sender_object_id, 4, self.args())
    }

    open spec fn encodable(&self, order: Endian) -> bool {
        self.wire(order).len() <= 0xffff
    }

    fn encode(&self, order: Endian, dst: &mut BytesMut) -> (r: Result<(), EncodeError>) {
        let mut args: Vec<Arg> = Vec::new();
        assert(args_view(args@) =~= self.args());
        encode_into(order, self.sender_object_id, 4, &args, dst)
    }
}

/// The shape of a touch point changed.
pub struct Shape {
    pub sender_object_id: u32,
    /// `int`
    pub id: i32,
    /// `fixed`
    pub major: u32,
    /// `fixed`
    pub minor: u32,
}

impl Shape {
    /// The opcode of this event.
    pub const OPCODE: u16 = 5;

    /// The arguments of this event, in wire order.
    pub open spec fn args(&self) -> Seq<ArgV> {
        seq![ArgV::Int(self.id), ArgV::Fixed(self.major), ArgV::Fixed(self.minor)]
    }
}

impl Event for Shape {
    open spec fn wire(&self, order: Endian) -> Seq<u8> {
        message_wire(order, self.sender_object_id, 5, self.args())
    }

    open spec fn encodable(&self, order: Endian) -> bool {
        self.wire(order).len() <= 0xffff
    }

    fn encode(&self, order: Endian, dst: &mut BytesMut) -> (r: Result<(), EncodeError>) {
        let mut args: Vec<Arg> = Vec::new();
        args.push(Arg::Int(self.id));
        args.push(Arg::Fixed(self.major));
        args.push(Arg::Fixed(self.minor));
        assert(args_view(args@) =~= self.args());
        encode_into(order, self.sender_object_id, 5, &args, dst)
    }
}

/// The orientation of a touch point changed.
pub struct Orientation {
    pub sender_object_id: u32,
    /// `int`
    pub id: i32,
    /// `fixed`
    pub orientation: u32,
}

impl Orientation {
    /// The opcode of this event.
    pub const OPCODE: u16 = 6;

    /// The arguments of this event, in wire order.
    pub open spec fn args(&self) -> Seq<ArgV> {
        seq![ArgV::Int(self.id), ArgV::Fixed(self.orientation)]
    }
}

impl Event for Orientation {
    open spec fn wire(&self, order: Endian) -> Seq<u8> {
        message_wire(order, self.sender_object_id, 6, self.args())
    }

    open spec fn encodable(&self, order: Endian) -> bool {
        self.wire(order).len() <= 0xffff
    }

    fn encode(&self, order: Endian, dst: &mut BytesMut) -> (r: Result<(), EncodeError>) {
        let mut args: Vec<Arg> = Vec::new();
        args.push(Arg::Int(self.id));
        args.push(Arg::Fixed(self.orientation));
        assert(args_view(args@) =~= self.args());
        encode_into(order, self.sender_object_id, 6, &args, dst)
    }
}

/// The bytes of a `down` event: its header (the sender, then its size
/// and opcode 0), then the bytes of its fields in wire order: `serial`, `time`, `surface`, `id`, `x`, `y`.
pub proof fn lemma_down_bytes(order: Endian, e: Down)
    ensures
        e.wire(order) == u32_bytes(order, e.sender_object_id) + u32_bytes(order, size_and_opcode(32, 0)) + u32_bytes(order, e.serial) + u32_bytes(order, e.time) + u32_bytes(order, e.surface) + i32_bytes(order, e.id) + u32_bytes(order, e.x) + u32_bytes(order, e.y),
{
    lemma_message_bytes(order, e.sender_object_id, 0, e.args());
    reveal_with_fuel(args_wire, 7);
    reveal_with_fuel(args_size, 7);
    assert(e.args() =~= seq![ArgV::Uint(e.serial), ArgV::Uint(e.time), ArgV::Object(e.surface), ArgV::Int(e.id), ArgV::Fixed(e.x), ArgV::Fixed(e.y)]);
    assert(e.args().drop_last() =~= seq![ArgV::Uint(e.serial), ArgV::Uint(e.time), ArgV::Object(e.surface), ArgV::Int(e.id), ArgV::Fixed(e.x)]);
    assert(e.args().drop_last().drop_last() =~= seq![ArgV::Uint(e.serial), ArgV::Uint(e.time), ArgV::Object(e.surface), ArgV::Int(e.id)]);
    assert(e.args().drop_last().drop_last().drop_last() =~= seq![ArgV::Uint(e.serial), ArgV::Uint(e.time), ArgV::Object(e.surface)]);
    assert(e.args().drop_last().drop_last().drop_last().drop_last() =~= seq![ArgV::Uint(e.serial), ArgV::Uint(e.time)]);
    assert(e.args().drop_last().drop_last().drop_last().drop_last().drop_last() =~= seq![ArgV::Uint(e.serial)]);
    assert(e.args().drop_last().drop_last().drop_last().drop_last().drop_last().drop_last() =~= Seq::<ArgV>::empty());
    assert(e.wire(order) =~= u32_bytes(order, e.sender_object_id) + u32_bytes(order, size_and_opcode(32, 0)) + u32_bytes(order, e.serial) + u32_bytes(order, e.time) + u32_bytes(order, e.surface) + i32_bytes(order, e.id) + u32_bytes(order, e.x) + u32_bytes(order, e.y));
}

/// The bytes of a `up` event: its header (the sender, then its size
/// and opcode 1), then the bytes of its fields in wire order: `serial`, `time`, `id`.
pub proof fn lemma_up_bytes(order: Endian, e: Up)
    ensures
        e.wire(order) == u32_bytes(order, e.sender_object_id) + u32_bytes(order, size_and_opcode(20, 1)) + u32_bytes(order, e.serial) + u32_bytes(order, e.time) + i32_bytes(order, e.id),
{
    lemma_message_bytes(order, e.sender_object_id, 1, e.args());
    reveal_with_fuel(args_wire, 4);
    reveal_with_fuel(args_size, 4);
    assert(e.args() =~= seq![ArgV::Uint(e.serial), ArgV::Uint(e.time), ArgV::Int(e.id)]);
    assert(e.args().drop_last() =~= seq![ArgV::Uint(e.serial), ArgV::Uint(e.time)]);
    assert(e.args().drop_last().drop_last() =~= seq![ArgV::Uint(e.serial)]);
    assert(e.args().drop_last().drop_last().drop_last() =~= Seq::<ArgV>::empty());
    assert(e.wire(order) =~= u32_bytes(order, e.sender_object_id) + u32_bytes(order, size_and_opcode(20, 1)) + u32_bytes(order, e.serial) + u32_bytes(order, e.time) + i32_bytes(order, e.id));
}

/// The bytes of a `motion` event: its header (the sender, then its size
/// and opcode 2), then the bytes of its fields in wire order: `time`, `id`, `x`, `y`.
pub proof fn lemma_motion_bytes(order: Endian, e: Motion)
    ensures
        e.wire(order) == u32_bytes(order, e.sender_object_id) + u32_bytes(order, size_and_opcode(24, 2)) + u32_bytes(order, e.time) + i32_bytes(order, e.id) + u32_bytes(order, e.x) + u32_bytes(order, e.y),
{
    lemma_message_bytes(order, e.sender_object_id, 2, e.args());
    reveal_with_fuel(args_wire, 5);
    reveal_with_fuel(args_size, 5);
    assert(e.args() =~= seq![ArgV::Uint(e.time), ArgV::Int(e.id), ArgV::Fixed(e.x), ArgV::Fixed(e.y)]);
    assert(e.args().drop_last() =~= seq![ArgV::Uint(e.time), ArgV::Int(e.id), ArgV::Fixed(e.x)]);
    assert(e.args().drop_last().drop_last() =~= seq![ArgV::Uint(e.time), ArgV::Int(e.id)]);
    assert(e.args().drop_last().drop_last().drop_last() =~= seq![ArgV::Uint(e.time)]);
    assert(e.args().drop_last().drop_last().drop_last().drop_last() =~= Seq::<ArgV>::empty());
    assert(e.wire(order) =~= u32_bytes(order, e.sender_object_id) + u32_bytes(order, size_and_opcode(24, 2)) + u32_bytes(order, e.time) + i32_bytes(order, e.id) + u32_bytes(order, e.x) + u32_bytes(order, e.y));
}

/// The bytes of a `frame` event are its header alone: the sender, then
/// the size 8 and opcode 3.
pub proof fn lemma_frame_bytes(order: Endian, e: Frame)
    ensures
        e.wire(order) == u32_bytes(order, e.sender_object_id) + u32_bytes(order, size_and_opcode(8, 3)),
{
    lemma_message_bytes(order, e.sender_object_id, 3, e.args());
    reveal_with_fuel(args_wire, 1);
    reveal_with_fuel(args_size, 1);
    assert(e.args() =~= Seq::<ArgV>::empty());
    assert(e.wire(order) =~= u32_bytes(order, e.sender_object_id) + u32_bytes(order, size_and_opcode(8, 3)));
}

/// The bytes of a `cancel` event are its header alone: the sender, then
/// the size 8 and opcode 4.
pub proof fn lemma_cancel_bytes(order: Endian, e: Cancel)
    ensures
        e.wire(order) == u32_bytes(order, e.sender_object_id) + u32_bytes(order, size_and_opcode(8, 4)),
{
    lemma_message_bytes(order, e.sender_object_id, 4, e.args());
    reveal_with_fuel(args_wire, 1);
    reveal_with_fuel(args_size, 1);
    assert(e.args() =~= Seq::<ArgV>::empty());
    assert(e.wire(order) =~= u32_bytes(order, e.sender_object_id) + u32_bytes(order, size_and_opcode(8, 4)));
}

/// The bytes of a `shape` event: its header (the sender, then its size
/// and opcode 5), then the bytes of its fields in wire order: `id`, `major`, `minor`.
pub proof fn lemma_shape_bytes(order: Endian, e: Shape)
    ensures
        e.wire(order) == u32_bytes(order, e.sender_object_id) + u32_bytes(order, size_and_opcode(20, 5)) + i32_bytes(order, e.id) + u32_bytes(order, e.major) + u32_bytes(order, e.minor),
{
    lemma_message_bytes(order, e.sender_object_id, 5, e.args());
    reveal_with_fuel(args_wire, 4);
    reveal_with_fuel(args_size, 4);
    assert(e.args() =~= seq![ArgV::Int(e.id), ArgV::Fixed(e.major), ArgV::Fixed(e.minor)]);
    assert(e.args().drop_last() =~= seq![ArgV::Int(e.id), ArgV::Fixed(e.major)]);
    assert(e.args().drop_last().drop_last() =~= seq![ArgV::Int(e.id)]);
    assert(e.args().drop_last().drop_last().drop_last() =~= Seq::<ArgV>::empty());
    assert(e.wire(order) =~= u32_bytes(order, e.sender_object_id) + u32_bytes(order, size_and_opcode(20, 5)) + i32_bytes(order, e.id) + u32_bytes(order, e.major) + u32_bytes(order, e.minor));
}

/// The bytes of a `orientation` event: its header (the sender, then its size
/// and opcode 6), then the bytes of its fields in wire order: `id`, `orientation`.
pub proof fn lemma_orientation_bytes(order: Endian, e: Orientation)
    ensures
        e.wire(order) == u32_bytes(order, e.sender_object_id) + u32_bytes(order, size_and_opcode(16, 6)) + i32_bytes(order, e.id) + u32_bytes(order, e.orientation),
{
    lemma_message_bytes(order, e.sender_object_id, 6, e.args());
    reveal_with_fuel(args_wire, 3);
    reveal_with_fuel(args_size, 3);
    assert(e.args() =~= seq![ArgV::Int(e.id), ArgV::Fixed(e.orientation)]);
    assert(e.args().drop_last() =~= seq![ArgV::Int(e.id)]);
    assert(e.args().drop_last().drop_last() =~= Seq::<ArgV>::empty());
    assert(e.wire(order) =~= u32_bytes(order, e.sender_object_id) + u32_bytes(order, size_and_opcode(16, 6)) + i32_bytes(order, e.id) + u32_bytes(order, e.orientation));
}

} // verus!
