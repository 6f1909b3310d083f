//! The events of `wl_output`.

use crate::event::{encode_into, Event};
use crate::message::{arg_size, arg_wire, args_size, args_view, args_wire, blob_wire, lemma_message_bytes, message_wire, padded_len, size_and_opcode, Arg, ArgV, EncodeError};
use crate::wire::{i32_bytes, u32_bytes, Endian};
use bytes::BytesMut;
use vstd::prelude::*;
use vstd::seq_lib::lemma_concat_associative;
use vstd::utf8::encode_utf8;

verus! {

/// Geometric properties of the output.
pub struct Geometry {
    pub sender_object_id: u32,
    /// `int`
    pub x: i32,
    /// `int`
    pub y: i32,
    /// `int`
    pub physical_width: i32,
    /// `int`
    pub physical_height: i32,
    /// `int`
    pub subpixel: i32,
    /// `string`
    pub make: String,
    /// `string`
    pub model: String,
    /// `int`
    pub transform: i32,
}

impl Geometry {
    /// The opcode of this event.
    pub const OPCODE: u16 = 0;

    /// The arguments of this event, in wire order.
    pub open spec fn args(&self) -> Seq<ArgV> {
        seq![ArgV::Int(self.x), ArgV::Int(self.y), ArgV::Int(self.physical_width), ArgV::Int(self.physical_height), ArgV::Int(self.subpixel), ArgV::Str(self.make@), ArgV::Str(self.model@), ArgV::Int(self.transform)]
    }
}

impl Event for Geometry {
    open spec fn wire(&self, order: Endian) -> Seq<u8> {
        message_wire(order, self.sender_object_id, 0, self.args())
    }

    open spec fn encodable(&self, order: Endian) -> bool {
        self.wire(order).len() <= 0xffff
    }

    fn encode(&self, order: Endian, dst: &mut BytesMut) -> (r: Result<(), EncodeError>) {
        let mut args: Vec<Arg> = Vec::new();
        args.push(Arg::Int(self.x));
        args.push(Arg::Int(self.y));
        args.push(Arg::Int(self.physical_width));
        args.push(Arg::Int(self.physical_height));
        args.push(Arg::Int(self.subpixel));
        args.push(Arg::Str(self.make.clone()));
        args.push(Arg::Str(self.model.clone()));
        args.push(Arg::Int(self.transform));
        assert(args_view(args@) =~= self.args());
        encode_into(order, self.sender_object_id, 0, &args, dst)
    }
}

/// An available mode of the output.
pub struct Mode {
    pub sender_object_id: u32,
    /// `uint`
    pub flags: u32,
    /// `int`
    pub width: i32,
    /// `int`
    pub height: i32,
    /// `int`
    pub refresh: i32,
}

impl Mode {
    /// The opcode of this event.
    pub const OPCODE: u16 = 1;

    /// The arguments of this event, in wire order.
    pub open spec fn args(&self) -> Seq<ArgV> {
        seq![ArgV::Uint(self.flags), ArgV::Int(self.width), ArgV::Int(self.height), ArgV::Int(self.refresh)]
    }
}

impl Event for Mode {
    open spec fn wire(&self, order: Endian) -> Seq<u8> {
        message_wire(order, self.sender_object_id, 1, self.args())
    }

    open spec fn encodable(&self, order: Endian) -> bool {
        self.wire(order).len() <= 0xffff
    }

    fn encode(&self, order: Endian, dst: &mut BytesMut) -> (r: Result<(), EncodeError>) {
        let mut args: Vec<Arg> = Vec::new();
        args.push(Arg::Uint(self.flags));
        args.push(Arg::Int(self.width));
        args.push(Arg::Int(self.height));
        args.push(Arg::Int(self.refresh));
        assert(args_view(args@) =~= self.args());
        encode_into(order, self.sender_object_id, 1, &args, dst)
    }
}

/// All information about the output was sent.
pub struct Done {
    pub sender_object_id: u32,
}

impl Done {
    /// The opcode of this event.
    pub const OPCODE: u16 = 2;

    /// The arguments of this event, in wire order.
    pub open spec fn args(&self) -> Seq<ArgV> {
        Seq::empty()
    }
}

impl Event for Done {
    open spec fn wire(&self, order: Endian) -> Seq<u8> {
        message_wire(order, self.sender_object_id, 2, self.args())
    }

    open spec fn encodable(&self, order: Endian) -> bool {
        self.wire(order).len() <= 0xffff
    }

    fn encode(&self, order: Endian, dst: &mut BytesMut) -> (r: Result<(), EncodeError>) {
        let mut args: Vec<Arg> = Vec::new();
        assert(args_view(args@) =~= self.args());
        encode_into(order, self.sender_object_id, 2, &args, dst)
    }
}

/// The scaling factor of the output.
pub struct Scale {
    pub sender_object_id: u32,
    /// `int`
    pub factor: i32,
}

impl Scale {
    /// The opcode of this event.
    pub const OPCODE: u16 = 3;

    /// The arguments of this event, in wire order.
    pub open spec fn args(&self) -> Seq<ArgV> {
        seq![ArgV::Int(self.factor)]
    }
}

impl Event for Scale {
    open spec fn wire(&self, order: Endian) -> Seq<u8> {
        message_wire(order, self.sender_object_id, 3, self.args())
    }

    open spec fn encodable(&self, order: Endian) -> bool {
        self.wire(order).len() <= 0xffff
    }

    fn encode(&self, order: Endian, dst: &mut BytesMut) -> (r: Result<(), EncodeError>) {
        let mut args: Vec<Arg> = Vec::new();
        args.push(Arg::Int(self.factor));
        assert(args_view(args@) =~= self.args());
        encode_into(order, self.sender_object_id, 3, &args, dst)
    }
}

/// The bytes of a `geometry` event: its header (the sender, then its size
/// and opcode 0), then the bytes of its fields in wire order: `x`, `y`, `physical_width`, `physical_height`, `subpixel`, `make`, `model`, `transform`.
pub proof fn lemma_geometry_bytes(order: Endian, e: Geometry)
    ensures
        e.wire(order) == u32_bytes(order, e.sender_object_id) + u32_bytes(order, size_and_opcode((32 + (4 + padded_len(encode_utf8(e.make@).len() as int)) + (4 + padded_len(encode_utf8(e.model@).len() as int))) as int, 0)) + i32_bytes(order, e.x) + i32_bytes(order, e.y) + i32_bytes(order, e.physical_width) + i32_bytes(order, e.physical_height) + i32_bytes(order, e.subpixel) + blob_wire(order, (encode_utf8(e.make@).len() + 1) as u32, encode_utf8(e.make@)) + blob_wire(order, (encode_utf8(e.model@).len() + 1) as u32, encode_utf8(e.model@)) + i32_bytes(order, e.transform),
{
    let a = e.args();
    lemma_message_bytes(order, e.sender_object_id, 0, a);
    let h = u32_bytes(order, e.sender_object_id) + u32_bytes(order, size_and_opcode(8 + args_size(a), 0));
    let f1 = i32_bytes(order, e.x);
    assert(arg_wire(order, a[0]) == f1);
    let f2 = i32_bytes(order, e.y);
    assert(arg_wire(order, a[1]) == f2);
    let f3 = i32_bytes(order, e.physical_width);
    assert(arg_wire(order, a[2]) == f3);
    let f4 = i32_bytes(order, e.physical_height);
    assert(arg_wire(order, a[3]) == f4);
    let f5 = i32_bytes(order, e.subpixel);
    assert(arg_wire(order, a[4]) == f5);
    let f6 = blob_wire(order, (encode_utf8(e.make@).len() + 1) as u32, encode_utf8(e.make@));
    assert(arg_wire(order, a[5]) == f6);
    let f7 = blob_wire(order, (encode_utf8(e.model@).len() + 1) as u32, encode_utf8(e.model@));
    assert(arg_wire(order, a[6]) == f7);
    let f8 = i32_bytes(order, e.transform);
    assert(arg_wire(order, a[7]) == f8);
    assert(a.subrange(0, 1).drop_last() =~= a.subrange(0, 0));
    assert(args_wire(order, a.subrange(0, 1)) == args_wire(order, a.subrange(0, 0)) + f1);
    assert(args_size(a.subrange(0, 1)) == args_size(a.subrange(0, 0)) + arg_size(a[0]));
    lemma_concat_associative(h, args_wire(order, a.subrange(0, 0)), f1);
    assert(a.subrange(0, 2).drop_last() =~= a.subrange(0, 1));
    assert(args_wire(order, a.subrange(0, 2)) == args_wire(order, a.subrange(0, 1)) + f2);
    assert(args_size(a.subrange(0, 2)) == args_size(a.subrange(0, 1)) + arg_size(a[1]));
    lemma_concat_associative(h, args_wire(order, a.subrange(0, 1)), f2);
    assert(a.subrange(0, 3).drop_last() =~= a.subrange(0, 2));
    assert(args_wire(order, a.subrange(0, 3)) == args_wire(order, a.subrange(0, 2)) + f3);
    assert(args_size(a.subrange(0, 3)) == args_size(a.subrange(0, 2)) + arg_size(a[2]));
    lemma_concat_associative(h, args_wire(order, a.subrange(0, 2)), f3);
    assert(a.subrange(0, 4).drop_last() =~= a.subrange(0, 3));
    assert(args_wire(order, a.subrange(0, 4)) == args_wire(order, a.subrange(0, 3)) + f4);
    assert(args_size(a.subrange(0, 4)) == args_size(a.subrange(0, 3)) + arg_size(a[3]));
    lemma_concat_associative(h, args_wire(order, a.subrange(0, 3)), f4);
    assert(a.subrange(0, 5).drop_last() =~= a.subrange(0, 4));
    assert(args_wire(order, a.subrange(0, 5)) == args_wire(order, a.subrange(0, 4)) + f5);
    assert(args_size(a.subrange(0, 5)) == args_size(a.subrange(0, 4)) + arg_size(a[4]));
    lemma_concat_associative(h, args_wire(order, a.subrange(0, 4)), f5);
    assert(a.subrange(0, 6).drop_last() =~= a.subrange(0, 5));
    assert(args_wire(order, a.subrange(0, 6)) == args_wire(order, a.subrange(0, 5)) + f6);
    assert(args_size(a.subrange(0, 6)) == args_size(a.subrange(0, 5)) + arg_size(a[5]));
    lemma_concat_associative(h, args_wire(order, a.subrange(0, 5)), f6);
    assert(a.subrange(0, 7).drop_last() =~= a.subrange(0, 6));
    assert(args_wire(order, a.subrange(0, 7)) == args_wire(order, a.subrange(0, 6)) + f7);
    assert(args_size(a.subrange(0, 7)) == args_size(a.subrange(0, 6)) + arg_size(a[6]));
    lemma_concat_associative(h, args_wire(order, a.subrange(0, 6)), f7);
    assert(a.subrange(0, 8).drop_last() =~= a.subrange(0, 7));
    assert(args_wire(order, a.subrange(0, 8)) == args_wire(order, a.subrange(0, 7)) + f8);
    assert(args_size(a.subrange(0, 8)) == args_size(a.subrange(0, 7)) + arg_size(a[7]));
    lemma_concat_associative(h, args_wire(order, a.subrange(0, 7)), f8);
    assert(a.subrange(0, 8) =~= a);
    assert(h + args_wire(order, a.subrange(0, 0)) =~= h);
}

/// The bytes of a `mode` event: its header (the sender, then its size
/// and opcode 1), then the bytes of its fields in wire order: `flags`, `width`, `height`, `refresh`.
pub proof fn lemma_mode_bytes(order: Endian, e: Mode)
    ensures
        e.wire(order) == u32_bytes(order, e.sender_object_id) + u32_bytes(order, size_and_opcode(24, 1)) + u32_bytes(order, e.flags) + i32_bytes(order, e.width) + i32_bytes(order, e.height) + i32_bytes(order, e.refresh),
{
    lemma_message_bytes(order, e.sender_object_id, 1, e.args());
    reveal_with_fuel(args_wire, 5);
    reveal_with_fuel(args_size, 5);
    assert(e.args() =~= seq![ArgV::Uint(e.flags), ArgV::Int(e.width), ArgV::Int(e.height), ArgV::Int(e.refresh)]);
    assert(e.args().drop_last() =~= seq![ArgV::Uint(e.flags), ArgV::Int(e.width), ArgV::Int(e.height)]);
    assert(e.args().drop_last().drop_last() =~= seq![ArgV::Uint(e.flags), ArgV::Int(e.width)]);
    assert(e.args().drop_last().drop_last().drop_last() =~= seq![ArgV::Uint(e.flags)]);
    assert(e.args().drop_last().drop_last().drop_last().drop_last() =~= Seq::<ArgV>::empty());
    assert(e.wire(order) =~= u32_bytes(order, e.sender_object_id) + u32_bytes(order, size_and_opcode(24, 1)) + u32_bytes(order, e.flags) + i32_bytes(order, e.width) + i32_bytes(order, e.height) + i32_bytes(order, e.refresh));
}

/// The bytes of a `done` event are its header alone: the sender, then
/// the size 8 and opcode 2.
pub proof fn lemma_done_bytes(order: Endian, e: Done)
    ensures
        e.wire(order) == u32_bytes(order, e.sender_object_id) + u32_bytes(order, size_and_opcode(8, 2)),
{
    lemma_message_bytes(order, e.sender_object_id, 2, e.args());
    reveal_with_fuel(args_wire, 1);
    reveal_with_fuel(args_size, 1);
    assert(e.args() =~= Seq::<ArgV>::empty());
    assert(e.wire(order) =~= u32_bytes(order, e.sender_object_id) + u32_bytes(order, size_and_opcode(8, 2)));
}

/// The bytes of a `scale` event: its header (the sender, then its size
/// and opcode 3), then the bytes of its fields in wire order: `factor`.
pub proof fn lemma_scale_bytes(order: Endian, e: Scale)
    ensures
        e.wire(order) == u32_bytes(order, e.sender_object_id) + u32_bytes(order, size_and_opcode(12, 3)) + i32_bytes(order, e.factor),
{
    lemma_message_bytes(order, e.sender_object_id, 3, e.args());
    reveal_with_fuel(args_wire, 2);
    reveal_with_fuel(args_size, 2);
    assert(e.args() =~= seq![ArgV::Int(e.factor)]);
    assert(e.args().drop_last() =~= Seq::<ArgV>::empty());
    assert(e.wire(order) =~= u32_bytes(order, e.sender_object_id) + u32_bytes(order, size_and_opcode(12, 3)) + i32_bytes(order, e.factor));
}

} // verus!
