//! The events of `wl_pointer`.

use crate::event::{encode_into, Event};
use crate::message::{args_size, args_view, args_wire, lemma_message_bytes, message_wire, size_and_opcode, Arg, ArgV, EncodeError};
use crate::wire::{i32_bytes, u32_bytes, Endian};
use bytes::BytesMut;
use vstd::prelude::*;

verus! {

/// The pointer entered a surface.
pub struct Enter {
    pub sender_object_id: u32,
    /// `uint`
    pub serial: u32,
    /// `object`
    pub surface: u32,
    /// `fixed`
    pub surface_x: u32,
    /// `fixed`
    pub surface_y: u32,
}

impl Enter {
    /// The opcode of this event.
    pub const OPCODE: u16 = 0;

    /// The arguments of this event, in wire order.
    pub open spec fn args(&self) -> Seq<ArgV> {
        seq![ArgV::Uint(self.serial), ArgV::Object(self.surface), ArgV::Fixed(self.surface_x), ArgV::Fixed(self.surface_y)]
    }
}

impl Event for Enter {
    open spec fn wire(&self, order: Endian) -> Seq<u8> {
        message_wire(order, self.sender_object_id, 0, self.args())
    }

    open spec fn encodable(&self, order: Endian) -> bool {
        self.wire(order).len() <= 0xffff
    }

    fn encode(&self, order: Endian, dst: &mut BytesMut) -> (r: Result<(), EncodeError>) {
        let mut args: Vec<Arg> = Vec::new();
        args.push(Arg::Uint(self.serial));
        args.push(Arg::Object(self.surface));
        args.push(Arg::Fixed(self.surface_x));
        args.push(Arg::Fixed(self.surface_y));
        assert(args_view(args@) =~= self.args());
        encode_into(order, self.sender_object_id, 0, &args, dst)
    }
}

/// The pointer left a surface.
pub struct Leave {
    pub sender_object_id: u32,
    /// `uint`
    pub serial: u32,
    /// `object`
    pub surface: u32,
}

impl Leave {
    /// The opcode of this event.
    pub const OPCODE: u16 = 1;

    /// The arguments of this event, in wire order.
    pub open spec fn args(&self) -> Seq<ArgV> {
        seq![ArgV::Uint(self.serial), ArgV::Object(self.surface)]
    }
}

impl Event for Leave {
    open spec fn wire(&self, order: Endian) -> Seq<u8> {
        message_wire(order, self.sender_object_id, 1, self.args())
    }

    open spec fn encodable(&self, order: Endian) -> bool {
        self.wire(order).len() <= 0xffff
    }

    fn encode(&self, order: Endian, dst: &mut BytesMut) -> (r: Result<(), EncodeError>) {
        let mut args: Vec<Arg> = Vec::new();
        args.push(Arg::Uint(self.serial));
        args.push(Arg::Object(self.surface));
        assert(args_view(args@) =~= self.args());
        encode_into(order, self.sender_object_id, 1, &args, dst)
    }
}

/// The pointer moved.
pub struct Motion {
    pub sender_object_id: u32,
    /// `uint`
    pub time: u32,
    /// `fixed`
    pub surface_x: u32,
    /// `fixed`
    pub surface_y: u32,
}

impl Motion {
    /// The opcode of this event.
    pub const OPCODE: u16 = 2;

    /// The arguments of this event, in wire order.
    pub open spec fn args(&self) -> Seq<ArgV> {
        seq![ArgV::Uint(self.time), ArgV::Fixed(self.surface_x), ArgV::Fixed(self.surface_y)]
    }
}

impl Event for Motion {
    open spec fn wire(&self, order: Endian) -> Seq<u8> {
        message_wire(order, self.sender_object_id, 2, self.args())
    }

    open spec fn encodable(&self, order: Endian) -> bool {
        self.wire(order).len() <= 0xffff
    }

    fn encode(&self, order: Endian, dst: &mut BytesMut) -> (r: Result<(), EncodeError>) {
        let mut args: Vec<Arg> = Vec::new();
        args.push(Arg::Uint(self.time));
        args.push(Arg::Fixed(self.surface_x));
        args.push(Arg::Fixed(self.surface_y));
        assert(args_view(args@) =~= self.args());
        encode_into(order, self.sender_object_id, 2, &args, dst)
    }
}

/// A pointer button was pressed or released.
pub struct Button {
    pub sender_object_id: u32,
    /// `uint`
    pub serial: u32,
    /// `uint`
    pub time: u32,
    /// `uint`
    pub button: u32,
    /// `uint`
    pub state: u32,
}

impl Button {
    /// The opcode of this event.
    pub const OPCODE: u16 = 3;

    /// The arguments of this event, in wire order.
    pub open spec fn args(&self) -> Seq<ArgV> {
        seq![ArgV::Uint(self.serial), ArgV::Uint(self.time), ArgV::Uint(self.button), ArgV::Uint(self.state)]
    }
}

impl Event for Button {
    open spec fn wire(&self, order: Endian) -> Seq<u8> {
        message_wire(order, self.sender_object_id, 3, self.args())
    }

    open spec fn encodable(&self, order: Endian) -> bool {
        self.wire(order).len() <= 0xffff
    }

    fn encode(&self, order: Endian, dst: &mut BytesMut) -> (r: Result<(), EncodeError>) {
        let mut args: Vec<Arg> = Vec::new();
        args.push(Arg::Uint(self.serial));
        args.push(Arg::Uint(self.time));
        args.push(Arg::Uint(self.button));
        args.push(Arg::Uint(self.state));
        assert(args_view(args@) =~= self.args());
        encode_into(order, self.sender_object_id, 3, &args, dst)
    }
}

/// Scroll and other axis notifications.
pub struct Axis {
    pub sender_object_id: u32,
    /// `uint`
    pub time: u32,
    /// `uint`
    pub axis: u32,
    /// `fixed`
    pub value: u32,
}

impl Axis {
    /// The opcode of this event.
    pub const OPCODE: u16 = 4;

    /// The arguments of this event, in wire order.
    pub open spec fn args(&self) -> Seq<ArgV> {
        seq![ArgV::Uint(self.time), ArgV::Uint(self.axis), ArgV::Fixed(self.value)]
    }
}

impl Event for Axis {
    open spec fn wire(&self, order: Endian) -> Seq<u8> {
        message_wire(order, self.sender_object_id, 4, self.args())
    }

    open spec fn encodable(&self, order: Endian) -> bool {
        self.wire(order).len() <= 0xffff
    }

    fn encode(&self, order: Endian, dst: &mut BytesMut) -> (r: Result<(), EncodeError>) {
        let mut args: Vec<Arg> = Vec::new();
        args.push(Arg::Uint(self.time));
        args.push(Arg::Uint(self.axis));
        args.push(Arg::Fixed(self.value));
        assert(args_view(args@) =~= self.args());
        encode_into(order, self.sender_object_id, 4, &args, dst)
    }
}

/// The end of a pointer event sequence.
pub struct Frame {
    pub sender_object_id: u32,
}

impl Frame {
    /// The opcode of this event.
    pub const OPCODE: u16 = 5;

    /// The arguments of this event, in wire order.
    pub open spec fn args(&self) -> Seq<ArgV> {
        Seq::empty()
    }
}

impl Event for Frame {
    open spec fn wire(&self, order: Endian) -> Seq<u8> {
        message_wire(order, self.sender_object_id, 5, self.args())
    }

    open spec fn encodable(&self, order: Endian) -> bool {
        self.wire(order).len() <= 0xffff
    }

    fn encode(&self, order: Endian, dst: &mut BytesMut) -> (r: Result<(), EncodeError>) {
        let mut args: Vec<Arg> = Vec::new();
        assert(args_view(args@) =~= self.args());
        encode_into(order, self.sender_object_id, 5, &args, dst)
    }
}

/// The source of an axis event.
pub struct AxisSource {
    pub sender_object_id: u32,
    /// `uint`
    pub axis_source: u32,
}

impl AxisSource {
    /// The opcode of this event.
    pub const OPCODE: u16 = 6;

    /// The arguments of this event, in wire order.
    pub open spec fn args(&self) -> Seq<ArgV> {
        seq![ArgV::Uint(self.axis_source)]
    }
}

impl Event for AxisSource {
    open spec fn wire(&self, order: Endian) -> Seq<u8> {
        message_wire(order, self.sender_object_id, 6, self.args())
    }

    open spec fn encodable(&self, order: Endian) -> bool {
        self.wire(order).len() <= 0xffff
    }

    fn encode(&self, order: Endian, dst: &mut BytesMut) -> (r: Result<(), EncodeError>) {
        let mut args: Vec<Arg> = Vec::new();
        args.push(Arg::Uint(self.axis_source));
        assert(args_view(args@) =~= self.args());
        encode_into(order, self.sender_object_id, 6, &args, dst)
    }
}

/// An axis stopped.
pub struct AxisStop {
    pub sender_object_id: u32,
    /// `uint`
    pub time: u32,
    /// `uint`
    pub axis: u32,
}

impl AxisStop {
    /// The opcode of this event.
    pub const OPCODE: u16 = 7;

    /// The arguments of this event, in wire order.
    pub open spec fn args(&self) -> Seq<ArgV> {
        seq![ArgV::Uint(self.time), ArgV::Uint(self.axis)]
    }
}

impl Event for AxisStop {
    open spec fn wire(&self, order: Endian) -> Seq<u8> {
        message_wire(order, self.sender_object_id, 7, self.args())
    }

    open spec fn encodable(&self, order: Endian) -> bool {
        self.wire(order).len() <= 0xffff
    }

    fn encode(&self, order: Endian, dst: &mut BytesMut) -> (r: Result<(), EncodeError>) {
        let mut args: Vec<Arg> = Vec::new();
        args.push(Arg::Uint(self.time));
        args.push(Arg::Uint(self.axis));
        assert(args_view(args@) =~= self.args());
        encode_into(order, self.sender_object_id, 7, &args, dst)
    }
}

/// Axis click event.
pub struct AxisDiscrete {
    pub sender_object_id: u32,
    /// `uint`
    pub axis: u32,
    /// `int`
    pub discrete: i32,
}

impl AxisDiscrete {
    /// The opcode of this event.
    pub const OPCODE: u16 = 8;

    /// The arguments of this event, in wire order.
    pub open spec fn args(&self) -> Seq<ArgV> {
        seq![ArgV::Uint(self.axis), ArgV::Int(self.discrete)]
    }
}

impl Event for AxisDiscrete {
    open spec fn wire(&self, order: Endian) -> Seq<u8> {
        message_wire(order, self.sender_object_id, 8, self.args())
    }

    open spec fn encodable(&self, order: Endian) -> bool {
        self.wire(order).len() <= 0xffff
    }

    fn encode(&self, order: Endian, dst: &mut BytesMut) -> (r: Result<(), EncodeError>) {
        let mut args: Vec<Arg> = Vec::new();
        args.push(Arg::Uint(self.axis));
        args.push(Arg::Int(self.discrete));
        assert(args_view(args@) =~= self.args());
        encode_into(order, self.sender_object_id, 8, &args, dst)
    }
}

/// The bytes of a `enter` event: its header (the sender, then its size
/// and opcode 0), then the bytes of its fields in wire order: `serial`, `surface`, `surface_x`, `surface_y`.
pub proof fn lemma_enter_bytes(order: Endian, e: Enter)
    ensures
        e.wire(order) == u32_bytes(order, e.sender_object_id) + u32_bytes(order, size_and_opcode(24, 0)) + u32_bytes(order, e.serial) + u32_bytes(order, e.surface) + u32_bytes(order, e.surface_x) + u32_bytes(order, e.surface_y),
{
    lemma_message_bytes(order, e.sender_object_id, 0, e.args());
    reveal_with_fuel(args_wire, 5);
    reveal_with_fuel(args_size, 5);
    assert(e.args() =~= seq![ArgV::Uint(e.serial), ArgV::Object(e.surface), ArgV::Fixed(e.surface_x), ArgV::Fixed(e.surface_y)]);
    assert(e.args().drop_last() =~= seq![ArgV::Uint(e.serial), ArgV::Object(e.surface), ArgV::Fixed(e.surface_x)]);
    assert(e.args().drop_last().drop_last() =~= seq![ArgV::Uint(e.serial), ArgV::Object(e.surface)]);
    assert(e.args().drop_last().drop_last().drop_last() =~= seq![ArgV::Uint(e.serial)]);
    assert(e.args().drop_last().drop_last().drop_last().drop_last() =~= Seq::<ArgV>::empty());
    assert(e.wire(order) =~= u32_bytes(order, e.sender_object_id) + u32_bytes(order, size_and_opcode(24, 0)) + u32_bytes(order, e.serial) + u32_bytes(order, e.surface) + u32_bytes(order, e.surface_x) + u32_bytes(order, e.surface_y));
}

/// The bytes of a `leave` event: its header (the sender, then its size
/// and opcode 1), then the bytes of its fields in wire order: `serial`, `surface`.
pub proof fn lemma_leave_bytes(order: Endian, e: Leave)
    ensures
        e.wire(order) == u32_bytes(order, e.sender_object_id) + u32_bytes(order, size_and_opcode(16, 1)) + u32_bytes(order, e.serial) + u32_bytes(order, e.surface),
{
    lemma_message_bytes(order, e.sender_object_id, 1, e.args());
    reveal_with_fuel(args_wire, 3);
    reveal_with_fuel(args_size, 3);
    assert(e.args() =~= seq![ArgV::Uint(e.serial), ArgV::Object(e.surface)]);
    assert(e.args().drop_last() =~= seq![ArgV::Uint(e.serial)]);
    assert(e.args().drop_last().drop_last() =~= Seq::<ArgV>::empty());
    assert(e.wire(order) =~= u32_bytes(order, e.sender_object_id) + u32_bytes(order, size_and_opcode(16, 1)) + u32_bytes(order, e.serial) + u32_bytes(order, e.surface));
}

/// The bytes of a `motion` event: its header (the sender, then its size
/// and opcode 2), then the bytes of its fields in wire order: `time`, `surface_x`, `surface_y`.
pub proof fn lemma_motion_bytes(order: Endian, e: Motion)
    ensures
        e.wire(order) == u32_bytes(order, e.sender_object_id) + u32_bytes(order, size_and_opcode(20, 2)) + u32_bytes(order, e.time) + u32_bytes(order, e.surface_x) + u32_bytes(order, e.surface_y),
{
    lemma_message_bytes(order, e.sender_object_id, 2, e.args());
    reveal_with_fuel(args_wire, 4);
    reveal_with_fuel(args_size, 4);
    assert(e.args() =~= seq![ArgV::Uint(e.time), ArgV::Fixed(e.surface_x), ArgV::Fixed(e.surface_y)]);
    assert(e.args().drop_last() =~= seq![ArgV::Uint(e.time), ArgV::Fixed(e.surface_x)]);
    assert(e.args().drop_last().drop_last() =~= seq![ArgV::Uint(e.time)]);
    assert(e.args().drop_last().drop_last().drop_last() =~= Seq::<ArgV>::empty());
    assert(e.wire(order) =~= u32_bytes(order, e.sender_object_id) + u32_bytes(order, size_and_opcode(20, 2)) + u32_bytes(order, e.time) + u32_bytes(order, e.surface_x) + u32_bytes(order, e.surface_y));
}

/// The bytes of a `button` event: its header (the sender, then its size
/// and opcode 3), then the bytes of its fields in wire order: `serial`, `time`, `button`, `state`.
pub proof fn lemma_button_bytes(order: Endian, e: Button)
    ensures
        e.wire(order) == u32_bytes(order, e.sender_object_id) + u32_bytes(order, size_and_opcode(24, 3)) + u32_bytes(order, e.serial) + u32_bytes(order, e.time) + u32_bytes(order, e.button) + u32_bytes(order, e.state),
{
    lemma_message_bytes(order, e.sender_object_id, 3, e.args());
    reveal_with_fuel(args_wire, 5);
    reveal_with_fuel(args_size, 5);
    assert(e.args() =~= seq![ArgV::Uint(e.serial), ArgV::Uint(e.time), ArgV::Uint(e.button), ArgV::Uint(e.state)]);
    assert(e.args().drop_last() =~= seq![ArgV::Uint(e.serial), ArgV::Uint(e.time), ArgV::Uint(e.button)]);
    assert(e.args().drop_last().drop_last() =~= seq![ArgV::Uint(e.serial), ArgV::Uint(e.time)]);
    assert(e.args().drop_last().drop_last().drop_last() =~= seq![ArgV::Uint(e.serial)]);
    assert(e.args().drop_last().drop_last().drop_last().drop_last() =~= Seq::<ArgV>::empty());
    assert(e.wire(order) =~= u32_bytes(order, e.sender_object_id) + u32_bytes(order, size_and_opcode(24, 3)) + u32_bytes(order, e.serial) + u32_bytes(order, e.time) + u32_bytes(order, e.button) + u32_bytes(order, e.state));
}

/// The bytes of a `axis` event: its header (the sender, then its size
/// and opcode 4), then the bytes of its fields in wire order: `time`, `axis`, `value`.
pub proof fn lemma_axis_bytes(order: Endian, e: Axis)
    ensures
        e.wire(order) == u32_bytes(order, e.sender_object_id) + u32_bytes(order, size_and_opcode(20, 4)) + u32_bytes(order, e.time) + u32_bytes(order, e.axis) + u32_bytes(order, e.value),
{
    lemma_message_bytes(order, e.sender_object_id, 4, e.args());
    reveal_with_fuel(args_wire, 4);
    reveal_with_fuel(args_size, 4);
    assert(e.args() =~= seq![ArgV::Uint(e.time), ArgV::Uint(e.axis), ArgV::Fixed(e.value)]);
    assert(e.args().drop_last() =~= seq![ArgV::Uint(e.time), ArgV::Uint(e.axis)]);
    assert(e.args().drop_last().drop_last() =~= seq![ArgV::Uint(e.time)]);
    assert(e.args().drop_last().drop_last().drop_last() =~= Seq::<ArgV>::empty());
    assert(e.wire(order) =~= u32_bytes(order, e.sender_object_id) + u32_bytes(order, size_and_opcode(20, 4)) + u32_bytes(order, e.time) + u32_bytes(order, e.axis) + u32_bytes(order, e.value));
}

/// The bytes of a `frame` event are its header alone: the sender, then
/// the size 8 and opcode 5.
pub proof fn lemma_frame_bytes(order: Endian, e: Frame)
    ensures
        e.wire(order) == u32_bytes(order, e.sender_object_id) + u32_bytes(order, size_and_opcode(8, 5)),
{
    lemma_message_bytes(order, e.sender_object_id, 5, e.args());
    reveal_with_fuel(args_wire, 1);
    reveal_with_fuel(args_size, 1);
    assert(e.args() =~= Seq::<ArgV>::empty());
    assert(e.wire(order) =~= u32_bytes(order, e.sender_object_id) + u32_bytes(order, size_and_opcode(8, 5)));
}

/// The bytes of a `axis_source` event: its header (the sender, then its size
/// and opcode 6), then the bytes of its fields in wire order: `axis_source`.
pub proof fn lemma_axis_source_bytes(order: Endian, e: AxisSource)
    ensures
        e.wire(order) == u32_bytes(order, e.sender_object_id) + u32_bytes(order, size_and_opcode(12, 6)) + u32_bytes(order, e.axis_source),
{
    lemma_message_bytes(order, e.sender_object_id, 6, e.args());
    reveal_with_fuel(args_wire, 2);
    reveal_with_fuel(args_size, 2);
    assert(e.args() =~= seq![ArgV::Uint(e.axis_source)]);
    assert(e.args().drop_last() =~= Seq::<ArgV>::empty());
    assert(e.wire(order) =~= u32_bytes(order, e.sender_object_id) + u32_bytes(order, size_and_opcode(12, 6)) + u32_bytes(order, e.axis_source));
}

/// The bytes of a `axis_stop` event: its header (the sender, then its size
/// and opcode 7), then the bytes of its fields in wire order: `time`, `axis`.
pub proof fn lemma_axis_stop_bytes(order: Endian, e: AxisStop)
    ensures
        e.wire(order) == u32_bytes(order, e.sender_object_id) + u32_bytes(order, size_and_opcode(16, 7)) + u32_bytes(order, e.time) + u32_bytes(order, e.axis),
{
    lemma_message_bytes(order, e.sender_object_id, 7, e.args());
    reveal_with_fuel(args_wire, 3);
    reveal_with_fuel(args_size, 3);
    assert(e.args() =~= seq![ArgV::Uint(e.time), ArgV::Uint(e.axis)]);
    assert(e.args().drop_last() =~= seq![ArgV::Uint(e.time)]);
    assert(e.args().drop_last().drop_last() =~= Seq::<ArgV>::empty());
    assert(e.wire(order) =~= u32_bytes(order, e.sender_object_id) + u32_bytes(order, size_and_opcode(16, 7)) + u32_bytes(order, e.time) + u32_bytes(order, e.axis));
}

/// The bytes of a `axis_discrete` event: its header (the sender, then its size
/// and opcode 8), then the bytes of its fields in wire order: `axis`, `discrete`.
pub proof fn lemma_axis_discrete_bytes(order: Endian, e: AxisDiscrete)
    ensures
        e.wire(order) == u32_bytes(order, e.sender_object_id) + u32_bytes(order, size_and_opcode(16, 8)) + u32_bytes(order, e.axis) + i32_bytes(order, e.discrete),
{
    lemma_message_bytes(order, e.sender_object_id, 8, e.args());
    reveal_with_fuel(args_wire, 3);
    reveal_with_fuel(args_size, 3);
    assert(e.args() =~= seq![ArgV::Uint(e.axis), ArgV::Int(e.discrete)]);
    assert(e.args().drop_last() =~= seq![ArgV::Uint(e.axis)]);
    assert(e.args().drop_last().drop_last() =~= Seq::<ArgV>::empty());
    assert(e.wire(order) =~= u32_bytes(order, e.sender_object_id) + u32_bytes(order, size_and_opcode(16, 8)) + u32_bytes(order, e.axis) + i32_bytes(order, e.discrete));
}

} // verus!
