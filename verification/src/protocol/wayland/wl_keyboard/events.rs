//! The events of `wl_keyboard`.

use crate::event::{encode_into, Event};
use crate::message::{args_size, args_view, args_wire, blob_wire, copy_bytes, lemma_message_bytes, message_wire, padded_len, size_and_opcode, Arg, ArgV, EncodeError};
use crate::wire::{i32_bytes, u32_bytes, Endian};
use bytes::BytesMut;
use vstd::prelude::*;

verus! {

/// The keyboard mapping. The file descriptor does not travel in the message body.
pub struct Keymap {
    pub sender_object_id: u32,
    /// `uint`
    pub format: u32,
    /// `fd`
    pub fd: i32,
    /// `uint`
    pub size: u32,
}

impl Keymap {
    /// The opcode of this event.
    pub const OPCODE: u16 = 0;

    /// The arguments of this event, in wire order.
    pub open spec fn args(&self) -> Seq<ArgV> {
        seq![ArgV::Uint(self.format), ArgV::Uint(self.size)]
    }
}

impl Event for Keymap {
    open spec fn wire(&self, order: Endian) -> Seq<u8> {
        message_wire(order, self.sender_object_id, 0, self.args())
    }

    open spec fn encodable(&self, order: Endian) -> bool {
        self.wire(order).len() <= 0xffff
    }

    fn encode(&self, order: Endian, dst: &mut BytesMut) -> (r: Result<(), EncodeError>) {
        let mut args: Vec<Arg> = Vec::new();
        args.push(Arg::Uint(self.format));
        args.push(Arg::Uint(self.size));
        assert(args_view(args@) =~= self.args());
        encode_into(order, self.sender_object_id, 0, &args, dst)
    }
}

/// The keyboard focus entered a surface.
pub struct Enter {
    pub sender_object_id: u32,
    /// `uint`
    pub serial: u32,
    /// `object`
    pub surface: u32,
    /// `array`
    pub keys: Vec<u8>,
}

impl Enter {
    /// The opcode of this event.
    pub const OPCODE: u16 = 1;

    /// The arguments of this event, in wire order.
    pub open spec fn args(&self) -> Seq<ArgV> {
        seq![ArgV::Uint(self.serial), ArgV::Object(self.surface), ArgV::Array(self.keys@)]
    }
}

impl Event for Enter {
    open spec fn wire(&self, order: Endian) -> Seq<u8> {
        message_wire(order, self.sender_object_id, 1, self.args())
    }

    open spec fn encodable(&self, order: Endian) -> bool {
        self.wire(order).len() <= 0xffff
    }

    fn encode(&self, order: Endian, dst: &mut BytesMut) -> (r: Result<(), EncodeError>) {
        let mut args: Vec<Arg> = Vec::new();
        args.push(Arg::Uint(self.serial));
        args.push(Arg::Object(self.surface));
        args.push(Arg::Array(copy_bytes(&self.keys)));
        assert(args_view(args@) =~= self.args());
        encode_into(order, self.sender_object_id, 1, &args, dst)
    }
}

/// The keyboard focus left a surface.
pub struct Leave {
    pub sender_object_id: u32,
    /// `uint`
    pub serial: u32,
    /// `object`
    pub surface: u32,
}

impl Leave {
    /// The opcode of this event.
    pub const OPCODE: u16 = 2;

    /// The arguments of this event, in wire order.
    pub open spec fn args(&self) -> Seq<ArgV> {
        seq![ArgV::Uint(self.serial), ArgV::Object(self.surface)]
    }
}

impl Event for Leave {
    open spec fn wire(&self, order: Endian) -> Seq<u8> {
        message_wire(order, self.sender_object_id, 2, self.args())
    }

    open spec fn encodable(&self, order: Endian) -> bool {
        self.wire(order).len() <= 0xffff
    }

    fn encode(&self, order: Endian, dst: &mut BytesMut) -> (r: Result<(), EncodeError>) {
        let mut args: Vec<Arg> = Vec::new();
        args.push(Arg::Uint(self.serial));
        args.push(Arg::Object(self.surface));
        assert(args_view(args@) =~= self.args());
        encode_into(order, self.sender_object_id, 2, &args, dst)
    }
}

/// A key was pressed or released.
pub struct Key {
    pub sender_object_id: u32,
    /// `uint`
    pub serial: u32,
    /// `uint`
    pub time: u32,
    /// `uint`
    pub key: u32,
    /// `uint`
    pub state: u32,
}

impl Key {
    /// The opcode of this event.
    pub const OPCODE: u16 = 3;

    /// The arguments of this event, in wire order.
    pub open spec fn args(&self) -> Seq<ArgV> {
        seq![ArgV::Uint(self.serial), ArgV::Uint(self.time), ArgV::Uint(self.key), ArgV::Uint(self.state)]
    }
}

impl Event for Key {
    open spec fn wire(&self, order: Endian) -> Seq<u8> {
        message_wire(order, self.sender_object_id, 3, self.args())
    }

    open spec fn encodable(&self, order: Endian) -> bool {
        self.wire(order).len() <= 0xffff
    }

    fn encode(&self, order: Endian, dst: &mut BytesMut) -> (r: Result<(), EncodeError>) {
        let mut args: Vec<Arg> = Vec::new();
        args.push(Arg::Uint(self.serial));
        args.push(Arg::Uint(self.time));
        args.push(Arg::Uint(self.key));
        args.push(Arg::Uint(self.state));
        assert(args_view(args@) =~= self.args());
        encode_into(order, self.sender_object_id, 3, &args, dst)
    }
}

/// The modifier and group state changed.
pub struct Modifiers {
    pub sender_object_id: u32,
    /// `uint`
    pub serial: u32,
    /// `uint`
    pub mods_depressed: u32,
    /// `uint`
    pub mods_latched: u32,
    /// `uint`
    pub mods_locked: u32,
    /// `uint`
    pub group: u32,
}

impl Modifiers {
    /// The opcode of this event.
    pub const OPCODE: u16 = 4;

    /// The arguments of this event, in wire order.
    pub open spec fn args(&self) -> Seq<ArgV> {
        seq![ArgV::Uint(self.serial), ArgV::Uint(self.mods_depressed), ArgV::Uint(self.mods_latched), ArgV::Uint(self.mods_locked), ArgV::Uint(self.group)]
    }
}

impl Event for Modifiers {
    open spec fn wire(&self, order: Endian) -> Seq<u8> {
        message_wire(order, self.sender_object_id, 4, self.args())
    }

    open spec fn encodable(&self, order: Endian) -> bool {
        self.wire(order).len() <= 0xffff
    }

    fn encode(&self, order: Endian, dst: &mut BytesMut) -> (r: Result<(), EncodeError>) {
        let mut args: Vec<Arg> = Vec::new();
        args.push(Arg::Uint(self.serial));
        args.push(Arg::Uint(self.mods_depressed));
        args.push(Arg::Uint(self.mods_latched));
        args.push(Arg::Uint(self.mods_locked));
        args.push(Arg::Uint(self.group));
        assert(args_view(args@) =~= self.args());
        encode_into(order, self.sender_object_id, 4, &args, dst)
    }
}

/// Repeat rate and delay.
pub struct RepeatInfo {
    pub sender_object_id: u32,
    /// `int`
    pub rate: i32,
    /// `int`
    pub delay: i32,
}

impl RepeatInfo {
    /// The opcode of this event.
    pub const OPCODE: u16 = 5;

    /// The arguments of this event, in wire order.
    pub open spec fn args(&self) -> Seq<ArgV> {
        seq![ArgV::Int(self.rate), ArgV::Int(self.delay)]
    }
}

impl Event for RepeatInfo {
    open spec fn wire(&self, order: Endian) -> Seq<u8> {
        message_wire(order, self.sender_object_id, 5, self.args())
    }

    open spec fn encodable(&self, order: Endian) -> bool {
        self.wire(order).len() <= 0xffff
    }

    fn encode(&self, order: Endian, dst: &mut BytesMut) -> (r: Result<(), EncodeError>) {
        let mut args: Vec<Arg> = Vec::new();
        args.push(Arg::Int(self.rate));
        args.push(Arg::Int(self.delay));
        assert(args_view(args@) =~= self.args());
        encode_into(order, self.sender_object_id, 5, &args, dst)
    }
}

/// The bytes of a `keymap` event: its header (the sender, then its size
/// and opcode 0), then the bytes of its fields in wire order: `format`, `size`.
pub proof fn lemma_keymap_bytes(order: Endian, e: Keymap)
    ensures
        e.wire(order) == u32_bytes(order, e.sender_object_id) + u32_bytes(order, size_and_opcode(16, 0)) + u32_bytes(order, e.format) + u32_bytes(order, e.size),
{
    lemma_message_bytes(order, e.sender_object_id, 0, e.args());
    reveal_with_fuel(args_wire, 3);
    reveal_with_fuel(args_size, 3);
    assert(e.args() =~= seq![ArgV::Uint(e.format), ArgV::Uint(e.size)]);
    assert(e.args().drop_last() =~= seq![ArgV::Uint(e.format)]);
    assert(e.args().drop_last().drop_last() =~= Seq::<ArgV>::empty());
    assert(e.wire(order) =~= u32_bytes(order, e.sender_object_id) + u32_bytes(order, size_and_opcode(16, 0)) + u32_bytes(order, e.format) + u32_bytes(order, e.size));
}

/// The bytes of a `enter` event: its header (the sender, then its size
/// and opcode 1), then the bytes of its fields in wire order: `serial`, `surface`, `keys`.
pub proof fn lemma_enter_bytes(order: Endian, e: Enter)
    ensures
        e.wire(order) == u32_bytes(order, e.sender_object_id) + u32_bytes(order, size_and_opcode((16 + (4 + padded_len(e.keys@.len() as int))) as int, 1)) + u32_bytes(order, e.serial) + u32_bytes(order, e.surface) + blob_wire(order, e.keys@.len() as u32, e.keys@),
{
    lemma_message_bytes(order, e.sender_object_id, 1, e.args());
    reveal_with_fuel(args_wire, 4);
    reveal_with_fuel(args_size, 4);
    assert(e.args() =~= seq![ArgV::Uint(e.serial), ArgV::Object(e.surface), ArgV::Array(e.keys@)]);
    assert(e.args().drop_last() =~= seq![ArgV::Uint(e.serial), ArgV::Object(e.surface)]);
    assert(e.args().drop_last().drop_last() =~= seq![ArgV::Uint(e.serial)]);
    assert(e.args().drop_last().drop_last().drop_last() =~= Seq::<ArgV>::empty());
    assert(e.wire(order) =~= u32_bytes(order, e.sender_object_id) + u32_bytes(order, size_and_opcode((16 + (4 + padded_len(e.keys@.len() as int))) as int, 1)) + u32_bytes(order, e.serial) + u32_bytes(order, e.surface) + blob_wire(order, e.keys@.len() as u32, e.keys@));
}

/// The bytes of a `leave` event: its header (the sender, then its size
/// and opcode 2), then the bytes of its fields in wire order: `serial`, `surface`.
pub proof fn lemma_leave_bytes(order: Endian, e: Leave)
    ensures
        e.wire(order) == u32_bytes(order, e.sender_object_id) + u32_bytes(order, size_and_opcode(16, 2)) + u32_bytes(order, e.serial) + u32_bytes(order, e.surface),
{
    lemma_message_bytes(order, e.sender_object_id, 2, e.args());
    reveal_with_fuel(args_wire, 3);
    reveal_with_fuel(args_size, 3);
    assert(e.args() =~= seq![ArgV::Uint(e.serial), ArgV::Object(e.surface)]);
    assert(e.args().drop_last() =~= seq![ArgV::Uint(e.serial)]);
    assert(e.args().drop_last().drop_last() =~= Seq::<ArgV>::empty());
    assert(e.wire(order) =~= u32_bytes(order, e.sender_object_id) + u32_bytes(order, size_and_opcode(16, 2)) + u32_bytes(order, e.serial) + u32_bytes(order, e.surface));
}

/// The bytes of a `key` event: its header (the sender, then its size
/// and opcode 3), then the bytes of its fields in wire order: `serial`, `time`, `key`, `state`.
pub proof fn lemma_key_bytes(order: Endian, e: Key)
    ensures
        e.wire(order) == u32_bytes(order, e.sender_object_id) + u32_bytes(order, size_and_opcode(24, 3)) + u32_bytes(order, e.serial) + u32_bytes(order, e.time) + u32_bytes(order, e.key) + u32_bytes(order, e.state),
{
    lemma_message_bytes(order, e.sender_object_id, 3, e.args());
    reveal_with_fuel(args_wire, 5);
    reveal_with_fuel(args_size, 5);
    assert(e.args() =~= seq![ArgV::Uint(e.serial), ArgV::Uint(e.time), ArgV::Uint(e.key), ArgV::Uint(e.state)]);
    assert(e.args().drop_last() =~= seq![ArgV::Uint(e.serial), ArgV::Uint(e.time), ArgV::Uint(e.key)]);
    assert(e.args().drop_last().drop_last() =~= seq![ArgV::Uint(e.serial), ArgV::Uint(e.time)]);
    assert(e.args().drop_last().drop_last().drop_last() =~= seq![ArgV::Uint(e.serial)]);
    assert(e.args().drop_last().drop_last().drop_last().drop_last() =~= Seq::<ArgV>::empty());
    assert(e.wire(order) =~= u32_bytes(order, e.sender_object_id) + u32_bytes(order, size_and_opcode(24, 3)) + u32_bytes(order, e.serial) + u32_bytes(order, e.time) + u32_bytes(order, e.key) + u32_bytes(order, e.state));
}

/// The bytes of a `modifiers` event: its header (the sender, then its size
/// and opcode 4), then the bytes of its fields in wire order: `serial`, `mods_depressed`, `mods_latched`, `mods_locked`, `group`.
pub proof fn lemma_modifiers_bytes(order: Endian, e: Modifiers)
    ensures
        e.wire(order) == u32_bytes(order, e.sender_object_id) + u32_bytes(order, size_and_opcode(28, 4)) + u32_bytes(order, e.serial) + u32_bytes(order, e.mods_depressed) + u32_bytes(order, e.mods_latched) + u32_bytes(order, e.mods_locked) + u32_bytes(order, e.group),
{
    lemma_message_bytes(order, e.sender_object_id, 4, e.args());
    reveal_with_fuel(args_wire, 6);
    reveal_with_fuel(args_size, 6);
    assert(e.args() =~= seq![ArgV::Uint(e.serial), ArgV::Uint(e.mods_depressed), ArgV::Uint(e.mods_latched), ArgV::Uint(e.mods_locked), ArgV::Uint(e.group)]);
    assert(e.args().drop_last() =~= seq![ArgV::Uint(e.serial), ArgV::Uint(e.mods_depressed), ArgV::Uint(e.mods_latched), ArgV::Uint(e.mods_locked)]);
    assert(e.args().drop_last().drop_last() =~= seq![ArgV::Uint(e.serial), ArgV::Uint(e.mods_depressed), ArgV::Uint(e.mods_latched)]);
    assert(e.args().drop_last().drop_last().drop_last() =~= seq![ArgV::Uint(e.serial), ArgV::Uint(e.mods_depressed)]);
    assert(e.args().drop_last().drop_last().drop_last().drop_last() =~= seq![ArgV::Uint(e.serial)]);
    assert(e.args().drop_last().drop_last().drop_last().drop_last().drop_last() =~= Seq::<ArgV>::empty());
    assert(e.wire(order) =~= u32_bytes(order, e.sender_object_id) + u32_bytes(order, size_and_opcode(28, 4)) + u32_bytes(order, e.serial) + u32_bytes(order, e.mods_depressed) + u32_bytes(order, e.mods_latched) + u32_bytes(order, e.mods_locked) + u32_bytes(order, e.group));
}

/// The bytes of a `repeat_info` event: its header (the sender, then its size
/// and opcode 5), then the bytes of its fields in wire order: `rate`, `delay`.
pub proof fn lemma_repeat_info_bytes(order: Endian, e: RepeatInfo)
    ensures
        e.wire(order) == u32_bytes(order, e.sender_object_id) + u32_bytes(order, size_and_opcode(16, 5)) + i32_bytes(order, e.rate) + i32_bytes(order, e.delay),
{
    lemma_message_bytes(order, e.sender_object_id, 5, e.args());
    reveal_with_fuel(args_wire, 3);
    reveal_with_fuel(args_size, 3);
    assert(e.args() =~= seq![ArgV::Int(e.rate), ArgV::Int(e.delay)]);
    assert(e.args().drop_last() =~= seq![ArgV::Int(e.rate)]);
    assert(e.args().drop_last().drop_last() =~= Seq::<ArgV>::empty());
    assert(e.wire(order) =~= u32_bytes(order, e.sender_object_id) + u32_bytes(order, size_and_opcode(16, 5)) + i32_bytes(order, e.rate) + i32_bytes(order, e.delay));
}

} // verus!
