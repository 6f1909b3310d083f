//! Framing: cutting a byte stream into requests.
//!
//! Every message starts with an 8-byte header: the sender's object id, then
//! a word whose upper 16 bits are the message size (header included) and
//! whose lower 16 bits are the opcode.

use crate::buffer::{bytes_advance, bytes_of, bytes_to_vec};
use crate::message::{args_wire, copy_range, message_wire, size_and_opcode, ArgV, HEADER_SIZE};
use crate::wire::{lemma_u32_bytes_of_value, lemma_u32_roundtrip, read_u32_at, u32_bytes, u32_value, Endian};
use bytes::BytesMut;
use vstd::prelude::*;

verus! {

/// One request from a client: the object it is sent to, the opcode, the
/// argument bytes and the file descriptors that came with it.
pub struct Request {
    pub sender_object_id: u32,
    pub opcode: u16,
    pub args: Vec<u8>,
    pub fds: Vec<i32>,
}

/// What a request holds, for specifications.
pub struct RequestV {
    pub sender_object_id: u32,
    pub opcode: u16,
    pub args: Seq<u8>,
    pub fds: Seq<i32>,
}

impl View for Request {
    type V = RequestV;

    open spec fn view(&self) -> RequestV {
        RequestV {
            sender_object_id: self.sender_object_id,
            opcode: self.opcode,
            args: self.args@,
            fds: self.fds@,
        }
    }
}

/// What the start of a byte stream holds.
pub enum FrameV {
    /// Not yet a whole message.
    Incomplete,
    /// A header whose size is smaller than a header.
    Malformed,
    /// A whole message of `size` bytes.
    Complete { sender: u32, opcode: u16, args: Seq<u8>, size: nat },
}

/// The message size that a header word gives.
pub open spec fn size_of_word(word: u32) -> nat {
    (word / 65536) as nat
}

/// The opcode that a header word gives.
pub open spec fn opcode_of_word(word: u32) -> u16 {
    (word % 65536) as u16
}

/// Reads the first message of `bytes`.
pub open spec fn frame_spec(order: Endian, bytes: Seq<u8>) -> FrameV {
    if bytes.len() < 8 {
        FrameV::Incomplete
    } else {
        let sender = u32_value(order, bytes.subrange(0, 4));
        let word = u32_value(order, bytes.subrange(4, 8));
        let size = size_of_word(word);
        if bytes.len() < size {
            FrameV::Incomplete
        } else if size < 8 {
            FrameV::Malformed
        } else {
            FrameV::Complete {
                sender,
                opcode: opcode_of_word(word),
                args: bytes.subrange(8, size as int),
                size,
            }
        }
    }
}

/// The outcome of reading one message from the front of a buffer.
pub enum Frame {
    Incomplete,
    Malformed,
    Complete { sender: u32, opcode: u16, args: Vec<u8>, size: usize },
}

impl View for Frame {
    type V = FrameV;

    open spec fn view(&self) -> FrameV {
        match self {
            Frame::Incomplete => FrameV::Incomplete,
            Frame::Malformed => FrameV::Malformed,
            Frame::Complete { sender, opcode, args, size } => FrameV::Complete {
                sender: *sender,
                opcode: *opcode,
                args: args@,
                size: *size as nat,
            },
        }
    }
}

/// Reads the first message of `bytes`.
pub fn read_frame(order: Endian, bytes: &Vec<u8>) -> (r: Frame)
    ensures
        r@ == frame_spec(order, bytes@),
{
    let len = bytes.len();
    if len < HEADER_SIZE {
        return Frame::Incomplete;
    }
    let sender = read_u32_at(order, bytes, 0);
    let word = read_u32_at(order, bytes, 4);
    let size_bits: u32 = word >> 16u32;
    let opcode_bits: u32 = word & 0xffffu32;
    assert(size_bits == word / 65536) by (bit_vector)
        requires
            size_bits == word >> 16u32,
    ;
    assert(opcode_bits == word % 65536) by (bit_vector)
        requires
            opcode_bits == word & 0xffffu32,
    ;
    let size = size_bits as usize;
    if len < size {
        return Frame::Incomplete;
    }
    if size < HEADER_SIZE {
        return Frame::Malformed;
    }
    let args = copy_range(bytes, HEADER_SIZE, size);
    Frame::Complete { sender, opcode: opcode_bits as u16, args, size }
}

/// The message that `read_frame` finds at the front of the encoding of a
/// header and a body is that header and body: framing undoes encoding.
pub proof fn lemma_frame_of_message(order: Endian, sender: u32, opcode: u16, body: Seq<u8>, rest: Seq<u8>)
    requires
        8 + body.len() <= 0xffff,
    ensures
        frame_spec(
            order,
            u32_bytes(order, sender) + u32_bytes(order, ((8 + body.len()) * 65536 + opcode) as u32) + body
                + rest,
        ) == (FrameV::Complete { sender, opcode, args: body, size: (8 + body.len()) as nat }),
{
    let word = ((8 + body.len()) * 65536 + opcode) as u32;
    let bytes = u32_bytes(order, sender) + u32_bytes(order, word) + body + rest;
    lemma_u32_roundtrip(order, sender);
    lemma_u32_roundtrip(order, word);
    assert(bytes.subrange(0, 4) == u32_bytes(order, sender));
    assert(bytes.subrange(4, 8) == u32_bytes(order, word));
    assert(bytes.subrange(8, 8 + body.len() as int) == body);
}

/// Reading a message back: the first message of a stream that starts with
/// an encoded message is that message, with its sender, its opcode, the
/// bytes of its arguments and its whole length.
pub proof fn lemma_frame_of_encoded(order: Endian, sender: u32, opcode: u16, args: Seq<ArgV>, rest: Seq<u8>)
    requires
        message_wire(order, sender, opcode, args).len() <= 0xffff,
    ensures
        frame_spec(order, message_wire(order, sender, opcode, args) + rest) == (FrameV::Complete {
            sender,
            opcode,
            args: args_wire(order, args),
            size: message_wire(order, sender, opcode, args).len(),
        }),
{
    let body = args_wire(order, args);
    let word = size_and_opcode(8 + body.len() as int, opcode);
    lemma_u32_roundtrip(order, sender);
    lemma_u32_roundtrip(order, word);
    assert(message_wire(order, sender, opcode, args) == u32_bytes(order, sender) + u32_bytes(order, word) + body);
    assert(8 + body.len() <= 0xffff);
    assert(word == ((8 + body.len()) * 65536 + opcode) as u32);
    lemma_frame_of_message(order, sender, opcode, body, rest);
}

/// Cutting a stream that starts with an encoded message gives that message
/// first, then whatever the rest of the stream gives.
pub proof fn lemma_split_encoded(order: Endian, sender: u32, opcode: u16, args: Seq<ArgV>, rest: Seq<u8>)
    requires
        message_wire(order, sender, opcode, args).len() <= 0xffff,
    ensures
        ({
            let m = message_wire(order, sender, opcode, args);
            let (frames, left, bad) = split_frames(order, m + rest);
            let (more, left2, bad2) = split_frames(order, rest);
            &&& frames == seq![RequestV { sender_object_id: sender, opcode, args: args_wire(order, args), fds: Seq::empty() }] + more
            &&& left == left2
            &&& bad == bad2
        }),
{
    let m = message_wire(order, sender, opcode, args);
    lemma_frame_of_encoded(order, sender, opcode, args, rest);
    assert((m + rest).subrange(m.len() as int, (m + rest).len() as int) =~= rest);
}

/// The view of a `BytesMut`'s contents after `advance`.
pub open spec fn after_frame(bytes: Seq<u8>, size: nat) -> Seq<u8> {
    bytes.subrange(size as int, bytes.len() as int)
}

/// A request as the frame codec hands it out: no file descriptors travel
/// with it.
pub struct WaylandRequest {
    pub sender_object_id: u32,
    pub opcode: u16,
    pub args: Vec<u8>,
}

/// The frame is malformed: its size is smaller than a header.
pub enum DecodeError {
    Malformed,
}

/// A decoder of client requests and an encoder of events over `BytesMut`
/// buffers.
pub struct WaylandCodec {}

impl WaylandCodec {
    pub fn new() -> (r: WaylandCodec) {
        WaylandCodec {  }
    }

    /// Takes the first whole request from `src`. Leaves `src` as it is and
    /// returns `Ok(None)` while the first message is incomplete; fails on a
    /// malformed header.
    pub fn decode(&mut self, order: Endian, src: &mut BytesMut) -> (r: Result<
        Option<WaylandRequest>,
        DecodeError,
    >)
        ensures
            match frame_spec(order, bytes_of(*old(src))) {
                FrameV::Incomplete => r matches Ok(None) && bytes_of(*final(src)) == bytes_of(*old(src)),
                FrameV::Malformed => r is Err && bytes_of(*final(src)) == bytes_of(*old(src)),
                FrameV::Complete { sender, opcode, args, size } => {
                    &&& r matches Ok(Some(req))
                    &&& req.sender_object_id == sender
                    &&& req.opcode == opcode
                    &&& req.args@ == args
                    &&& bytes_of(*final(src)) == after_frame(bytes_of(*old(src)), size)
                },
            },
    {
        let data = bytes_to_vec(src);
        match read_frame(order, &data) {
            Frame::Incomplete => Ok(None),
            Frame::Malformed => Err(DecodeError::Malformed),
            Frame::Complete { sender, opcode, args, size } => {
                bytes_advance(src, size);
                Ok(Some(WaylandRequest { sender_object_id: sender, opcode, args }))
            },
        }
    }
}

/// Cuts `bytes` into whole messages from the front. Returns the requests
/// (with no file descriptors yet), the bytes left after the last whole
/// message, and whether a malformed header stopped the cutting.
pub open spec fn split_frames(order: Endian, bytes: Seq<u8>) -> (Seq<RequestV>, Seq<u8>, bool)
    decreases bytes.len(),
{
    if bytes.len() < 8 {
        (Seq::empty(), bytes, false)
    } else {
        let sender = u32_value(order, bytes.subrange(0, 4));
        let word = u32_value(order, bytes.subrange(4, 8));
        let size = size_of_word(word);
        if bytes.len() < size {
            (Seq::empty(), bytes, false)
        } else if size < 8 {
            (Seq::empty(), bytes, true)
        } else {
            let first = RequestV {
                sender_object_id: sender,
                opcode: opcode_of_word(word),
                args: bytes.subrange(8, size as int),
                fds: Seq::empty(),
            };
            let (more, rest, bad) = split_frames(order, bytes.subrange(size as int, bytes.len() as int));
            (seq![first] + more, rest, bad)
        }
    }
}

/// `reqs` with `fds` given to the first request.
pub open spec fn with_fds(reqs: Seq<RequestV>, fds: Seq<i32>) -> Seq<RequestV> {
    if reqs.len() == 0 {
        reqs
    } else {
        reqs.update(
            0,
            RequestV {
                sender_object_id: reqs[0].sender_object_id,
                opcode: reqs[0].opcode,
                args: reqs[0].args,
                fds,
            },
        )
    }
}

/// What a request queue holds, for specifications.
pub struct RequestQueueV {
    pub pending_bytes: Seq<u8>,
    pub pending_fds: Seq<i32>,
    pub pending_requests: Seq<RequestV>,
}

/// The bytes and file descriptors received from a client and not yet cut
/// into requests, and the requests cut but not yet handed out.
pub struct RequestQueue {
    pending_bytes: Vec<u8>,
    pending_fds: Vec<i32>,
    pending_requests: Vec<Request>,
}

impl View for RequestQueue {
    type V = RequestQueueV;

    closed spec fn view(&self) -> RequestQueueV {
        RequestQueueV {
            pending_bytes: self.pending_bytes@,
            pending_fds: self.pending_fds@,
            pending_requests: self.pending_requests@.map_values(|r: Request| r@),
        }
    }
}

impl RequestQueue {
    pub fn new() -> (r: RequestQueue)
        ensures
            r@.pending_bytes == Seq::<u8>::empty(),
            r@.pending_fds == Seq::<i32>::empty(),
            r@.pending_requests == Seq::<RequestV>::empty(),
    {
        let r = RequestQueue {
            pending_bytes: Vec::new(),
            pending_fds: Vec::new(),
            pending_requests: Vec::new(),
        };
        assert(r@.pending_requests =~= Seq::<RequestV>::empty());
        r
    }

    /// How many bytes and file descriptors wait to be cut into requests.
    pub fn pending_len(&self) -> (r: (usize, usize))
        ensures
            r.0 == self@.pending_bytes.len(),
            r.1 == self@.pending_fds.len(),
    {
        (self.pending_bytes.len(), self.pending_fds.len())
    }

    /// Hands out the oldest request cut so far, if any.
    pub fn take_next(&mut self) -> (r: Option<Request>)
        ensures
            old(self)@.pending_requests.len() == 0 ==> r is None && final(self)@ == old(self)@,
            old(self)@.pending_requests.len() > 0 ==> {
                &&& r matches Some(req)
                &&& req@ == old(self)@.pending_requests[0]
                &&& final(self)@.pending_requests == old(self)@.pending_requests.drop_first()
                &&& final(self)@.pending_bytes == old(self)@.pending_bytes
                &&& final(self)@.pending_fds == old(self)@.pending_fds
            },
            take_spec(old(self)@) == (final(self)@, match r {
                Some(req) => Some(req@),
                None => None::<RequestV>,
            }),
    {
        if self.pending_requests.len() == 0 {
            return None;
        }
        let ghost before = self.pending_requests@;
        let first = self.pending_requests.remove(0);
        assert(self@.pending_requests =~= old(self)@.pending_requests.drop_first());
        Some(first)
    }

    /// Takes in the bytes and file descriptors of one receive, and cuts
    /// every whole message at the front of the pending bytes into a request.
    /// All pending file descriptors go with the first request cut. Fails,
    /// after cutting the messages before it, on a malformed header.
    pub fn receive(&mut self, order: Endian, data: Vec<u8>, fds: Vec<i32>) -> (r: Result<(), ()>)
        requires
            old(self)@.pending_bytes.len() + data@.len() <= usize::MAX,
            old(self)@.pending_fds.len() + fds@.len() <= usize::MAX,
        ensures
            ({
                let all = old(self)@.pending_bytes + data@;
                let all_fds = old(self)@.pending_fds + fds@;
                let (frames, rest, bad) = split_frames(order, all);
                &&& r is Err <==> bad
                &&& final(self)@.pending_requests == old(self)@.pending_requests + with_fds(frames, all_fds)
                &&& final(self)@.pending_bytes == rest
                &&& final(self)@.pending_fds == (if frames.len() > 0 { Seq::empty() } else { all_fds })
            }),
            receive_spec(order, old(self)@, data@, fds@) == (final(self)@, r is Err),
    {
        proof {
            reveal(receive_spec);
        }
        let ghost all = old(self)@.pending_bytes + data@;
        let ghost all_fds = old(self)@.pending_fds + fds@;
        let ghost old_reqs = old(self)@.pending_requests;
        let mut data = data;
        let mut fds = fds;
        self.pending_bytes.append(&mut data);
        self.pending_fds.append(&mut fds);
        let ghost mut done: Seq<RequestV> = Seq::empty();
        assert(self.pending_bytes@ == all);
        #[verifier::loop_isolation(false)]
        loop
            invariant
                split_frames(order, all).0 == done + split_frames(order, self.pending_bytes@).0,
                split_frames(order, all).1 == split_frames(order, self.pending_bytes@).1,
                split_frames(order, all).2 == split_frames(order, self.pending_bytes@).2,
                self@.pending_requests == old_reqs + with_fds(done, all_fds),
                self@.pending_fds == (if done.len() > 0 { Seq::empty() } else { all_fds }),
            decreases self.pending_bytes@.len(),
        {
            let frame = read_frame(order, &self.pending_bytes);
            match frame {
                Frame::Incomplete => {
                    assert(split_frames(order, self.pending_bytes@).0 =~= Seq::<RequestV>::empty());
                    assert(done + Seq::<RequestV>::empty() =~= done);
                    break;
                },
                Frame::Malformed => {
                    assert(split_frames(order, self.pending_bytes@).0 =~= Seq::<RequestV>::empty());
                    assert(split_frames(order, self.pending_bytes@).2);
                    assert(split_frames(order, self.pending_bytes@).1 == self.pending_bytes@);
                    assert(split_frames(order, all).0 == done);
                    assert(split_frames(order, all).1 == self.pending_bytes@);
                    assert(done + Seq::<RequestV>::empty() =~= done);
                    return Err(());
                },
                Frame::Complete { sender, opcode, args, size } => {
                    let ghost cur = self.pending_bytes@;
                    let req_fds = self.pending_fds.clone();
                    self.pending_fds.clear();
                    let tail = self.pending_bytes.split_off(size);
                    self.pending_bytes = tail;
                    let req = Request { sender_object_id: sender, opcode, args, fds: req_fds };
                    let ghost frame_v = RequestV {
                        sender_object_id: sender,
                        opcode,
                        args: req.args@,
                        fds: Seq::empty(),
                    };
                    let ghost before_reqs = self@.pending_requests;
                    self.pending_requests.push(req);
                    proof {
                        assert(split_frames(order, cur).0 == seq![frame_v] + split_frames(order, self.pending_bytes@).0);
                        assert(done + split_frames(order, cur).0 == done.push(frame_v) + split_frames(order, self.pending_bytes@).0);
                        if done.len() == 0 {
                            assert(req_fds@ == all_fds);
                            assert(with_fds(done.push(frame_v), all_fds) =~= seq![req@]);
                        } else {
                            assert(req_fds@ =~= Seq::<i32>::empty());
                            assert(with_fds(done.push(frame_v), all_fds) =~= with_fds(done, all_fds).push(req@));
                        }
                        assert(self@.pending_requests =~= before_reqs.push(req@));
                        done = done.push(frame_v);
                    }
                },
            }
        }
        Ok(())
    }
}

/// What to do after a peeking receive into a buffer of `buf_len` bytes.
pub enum PeekStep {
    /// The message did not fit: peek again with a buffer of this size.
    Grow(usize),
    /// The control data (file descriptors) did not fit: give up.
    Fail,
    /// The message fits: receive it for real.
    Receive,
}

/// Decides, after a peeking receive that filled `bytes` of a buffer of
/// `buf_len` bytes and reported the given truncation flags, whether to grow
/// the buffer (it was truncated, or filled to the last byte), to fail (the
/// file descriptors were truncated) or to receive.
pub fn peek_step(buf_len: usize, bytes: usize, truncated: bool, control_truncated: bool) -> (r:
    PeekStep)
    requires
        buf_len <= usize::MAX / 2,
    ensures
        (truncated || bytes == buf_len) ==> r == PeekStep::Grow((2 * buf_len) as usize),
        (!truncated && bytes != buf_len && control_truncated) ==> r == PeekStep::Fail,
        (!truncated && bytes != buf_len && !control_truncated) ==> r == PeekStep::Receive,
{
    if truncated {
        PeekStep::Grow(buf_len * 2)
    } else if bytes == buf_len {
        PeekStep::Grow(buf_len * 2)
    } else if control_truncated {
        PeekStep::Fail
    } else {
        PeekStep::Receive
    }
}

/// The bytes of requests, each as a header and its argument bytes, one
/// after the other.
pub open spec fn requests_wire(order: Endian, reqs: Seq<RequestV>) -> Seq<u8>
    decreases reqs.len(),
{
    if reqs.len() == 0 {
        Seq::empty()
    } else {
        let r = reqs[0];
        u32_bytes(order, r.sender_object_id) + u32_bytes(order, size_and_opcode(8 + r.args.len() as int, r.opcode))
            + r.args + requests_wire(order, reqs.drop_first())
    }
}

/// A header, read and written back, is the same eight bytes.
proof fn lemma_header_written_back(order: Endian, bytes: Seq<u8>)
    requires
        bytes.len() >= 8,
        size_of_word(u32_value(order, bytes.subrange(4, 8))) >= 8,
    ensures
        ({
            let word = u32_value(order, bytes.subrange(4, 8));
            u32_bytes(order, u32_value(order, bytes.subrange(0, 4))) + u32_bytes(
                order,
                size_and_opcode(size_of_word(word) as int, opcode_of_word(word)),
            ) == bytes.subrange(0, 8)
        }),
{
    let head = bytes.subrange(0, 4);
    let second = bytes.subrange(4, 8);
    let word = u32_value(order, second);
    lemma_u32_bytes_of_value(order, head);
    lemma_u32_bytes_of_value(order, second);
    assert(size_and_opcode(size_of_word(word) as int, opcode_of_word(word)) == word);
    assert(head + second =~= bytes.subrange(0, 8));
}

/// The request that a stream starts with, when its header is whole.
pub open spec fn first_request(order: Endian, bytes: Seq<u8>) -> RequestV {
    let word = u32_value(order, bytes.subrange(4, 8));
    RequestV {
        sender_object_id: u32_value(order, bytes.subrange(0, 4)),
        opcode: opcode_of_word(word),
        args: bytes.subrange(8, size_of_word(word) as int),
        fds: Seq::empty(),
    }
}

/// One step of cutting: the first request, then what the rest gives.
proof fn lemma_split_step(order: Endian, bytes: Seq<u8>)
    requires
        bytes.len() >= 8,
        8 <= size_of_word(u32_value(order, bytes.subrange(4, 8))) <= bytes.len(),
    ensures
        ({
            let size = size_of_word(u32_value(order, bytes.subrange(4, 8)));
            let tail = bytes.subrange(size as int, bytes.len() as int);
            split_frames(order, bytes) == (seq![first_request(order, bytes)] + split_frames(order, tail).0, split_frames(order, tail).1, split_frames(order, tail).2)
        }),
{
}

/// The first request, written back, is the bytes it was cut from.
proof fn lemma_first_written_back(order: Endian, bytes: Seq<u8>, more: Seq<RequestV>)
    requires
        bytes.len() >= 8,
        8 <= size_of_word(u32_value(order, bytes.subrange(4, 8))) <= bytes.len(),
    ensures
        requests_wire(order, seq![first_request(order, bytes)] + more) == bytes.subrange(
            0,
            size_of_word(u32_value(order, bytes.subrange(4, 8))) as int,
        ) + requests_wire(order, more),
{
    let size = size_of_word(u32_value(order, bytes.subrange(4, 8)));
    let first = first_request(order, bytes);
    let all = seq![first] + more;
    lemma_header_written_back(order, bytes);
    assert(all[0] == first);
    assert(all.drop_first() =~= more);
    assert(first.args.len() == size - 8);
    assert(bytes.subrange(0, 8) + first.args =~= bytes.subrange(0, size as int));
}

/// Cutting a stream into requests loses no byte and makes none up: unless a
/// malformed header stopped it, the requests it cut, written back one after
/// the other, followed by the bytes left over, are the stream.
/// Two pieces of a stream, each written back, make the stream.
proof fn lemma_join(head: Seq<u8>, tail: Seq<u8>, more: Seq<u8>, rest: Seq<u8>)
    requires
        more + rest == tail,
    ensures
        head + more + rest == head + tail,
{
    assert(head + more + rest =~= head + (more + rest));
}

#[verifier::spinoff_prover]
pub proof fn lemma_split_frames_lossless(order: Endian, bytes: Seq<u8>)
    ensures
        ({
            let (frames, rest, bad) = split_frames(order, bytes);
            !bad ==> requests_wire(order, frames) + rest == bytes
        }),
    decreases bytes.len(),
{
    if bytes.len() >= 8 && 8 <= size_of_word(u32_value(order, bytes.subrange(4, 8))) <= bytes.len() {
        let size = size_of_word(u32_value(order, bytes.subrange(4, 8)));
        let tail = bytes.subrange(size as int, bytes.len() as int);
        let (more, rest2, bad2) = split_frames(order, tail);
        lemma_split_step(order, bytes);
        lemma_split_frames_lossless(order, tail);
        lemma_first_written_back(order, bytes, more);
        if !bad2 {
            lemma_join(bytes.subrange(0, size as int), tail, requests_wire(order, more), rest2);
            assert(bytes.subrange(0, size as int) + tail =~= bytes);
        }
    } else {
        assert(requests_wire(order, Seq::<RequestV>::empty()) + bytes =~= bytes);
    }
}

/// What `take_next` does to a queue: the queue after it, and the request it
/// hands out.
pub open spec fn take_spec(q: RequestQueueV) -> (RequestQueueV, Option<RequestV>) {
    if q.pending_requests.len() == 0 {
        (q, None)
    } else {
        (RequestQueueV { pending_requests: q.pending_requests.drop_first(), ..q }, Some(q.pending_requests[0]))
    }
}

/// What `receive` does to a queue: the queue after it, and whether a
/// malformed header made it fail.
#[verifier::opaque]
pub open spec fn receive_spec(order: Endian, q: RequestQueueV, data: Seq<u8>, fds: Seq<i32>) -> (RequestQueueV, bool) {
    let all = q.pending_bytes + data;
    let all_fds = q.pending_fds + fds;
    let (frames, rest, bad) = split_frames(order, all);
    (
        RequestQueueV {
            pending_bytes: rest,
            pending_fds: if frames.len() > 0 { Seq::empty() } else { all_fds },
            pending_requests: q.pending_requests + with_fds(frames, all_fds),
        },
        bad,
    )
}

/// The stream that a queue still holds: its requests written back one after
/// the other, then the bytes not yet cut.
pub open spec fn queue_stream(order: Endian, q: RequestQueueV) -> Seq<u8> {
    requests_wire(order, q.pending_requests) + q.pending_bytes
}

/// One call on a request queue.
pub enum QueueCall {
    Receive { data: Seq<u8>, fds: Seq<i32> },
    TakeNext,
}

/// A run of calls on a queue: the queue after them, the requests handed out
/// in order, the bytes taken in in order, and whether a receive failed. The
/// run stops at a failed receive, as the stream of requests does.
pub open spec fn queue_run(order: Endian, q: RequestQueueV, calls: Seq<QueueCall>) -> (
    RequestQueueV,
    Seq<RequestV>,
    Seq<u8>,
    bool,
)
    decreases calls.len(),
{
    if calls.len() == 0 {
        (q, Seq::empty(), Seq::empty(), false)
    } else {
        let (q1, out, taken_in, failed) = queue_run(order, q, calls.drop_last());
        if failed {
            (q1, out, taken_in, true)
        } else {
            match calls.last() {
                QueueCall::Receive { data, fds } => {
                    let (q2, bad) = receive_spec(order, q1, data, fds);
                    (q2, out, taken_in + data, bad)
                },
                QueueCall::TakeNext => {
                    let (q2, r) = take_spec(q1);
                    (q2, match r {
                        Some(x) => out.push(x),
                        None => out,
                    }, taken_in, false)
                },
            }
        }
    }
}

/// Writing back requests one after the other: the bytes of two runs of
/// requests are the bytes of each.
pub proof fn lemma_requests_wire_concat(order: Endian, a: Seq<RequestV>, b: Seq<RequestV>)
    ensures
        requests_wire(order, a + b) == requests_wire(order, a) + requests_wire(order, b),
    decreases a.len(),
{
    if a.len() == 0 {
        assert(a + b =~= b);
        assert(requests_wire(order, a) + requests_wire(order, b) =~= requests_wire(order, b));
    } else {
        lemma_requests_wire_concat(order, a.drop_first(), b);
        assert((a + b).drop_first() =~= a.drop_first() + b);
        assert((a + b)[0] == a[0]);
        let h = u32_bytes(order, a[0].sender_object_id) + u32_bytes(order, size_and_opcode(8 + a[0].args.len() as int, a[0].opcode))
            + a[0].args;
        assert(requests_wire(order, a + b) == h + requests_wire(order, (a + b).drop_first()));
        assert(h + (requests_wire(order, a.drop_first()) + requests_wire(order, b)) =~= h + requests_wire(order, a.drop_first())
            + requests_wire(order, b));
    }
}

/// File descriptors do not travel in the bytes of requests.
proof fn lemma_with_fds_wire(order: Endian, reqs: Seq<RequestV>, fds: Seq<i32>)
    ensures
        requests_wire(order, with_fds(reqs, fds)) == requests_wire(order, reqs),
{
    if reqs.len() > 0 {
        let w = with_fds(reqs, fds);
        assert(w.drop_first() =~= reqs.drop_first());
    }
}

/// Requests cut from the pending bytes and the data join the requests
/// already held without changing the stream.
proof fn lemma_stream_join(
    order: Endian,
    held: Seq<RequestV>,
    frames: Seq<RequestV>,
    rest: Seq<u8>,
    fds: Seq<i32>,
    bytes: Seq<u8>,
    data: Seq<u8>,
)
    requires
        requests_wire(order, frames) + rest == bytes + data,
    ensures
        requests_wire(order, held + with_fds(frames, fds)) + rest == requests_wire(order, held) + bytes + data,
{
    lemma_with_fds_wire(order, frames, fds);
    lemma_requests_wire_concat(order, held, with_fds(frames, fds));
    let a = requests_wire(order, held);
    assert(a + requests_wire(order, frames) + rest =~= a + (requests_wire(order, frames) + rest));
    assert(a + (bytes + data) =~= a + bytes + data);
}

/// A receive that does not fail adds the bytes it took in to the end of the
/// stream that the queue holds.
#[verifier::spinoff_prover]
pub proof fn lemma_receive_stream(order: Endian, q: RequestQueueV, data: Seq<u8>, fds: Seq<i32>)
    ensures
        !receive_spec(order, q, data, fds).1 ==> queue_stream(order, receive_spec(order, q, data, fds).0) == queue_stream(
            order,
            q,
        ) + data,
{
    reveal(receive_spec);
    let all = q.pending_bytes + data;
    let cut = split_frames(order, all);
    lemma_split_frames_lossless(order, all);
    if !cut.2 {
        lemma_stream_join(order, q.pending_requests, cut.0, cut.1, q.pending_fds + fds, q.pending_bytes, data);
    }
}

/// Taking a request takes its bytes from the front of the stream that the
/// queue holds.
pub proof fn lemma_take_stream(order: Endian, q: RequestQueueV)
    ensures
        ({
            let (q2, r) = take_spec(q);
            match r {
                Some(x) => requests_wire(order, seq![x]) + queue_stream(order, q2) == queue_stream(order, q),
                None => q2 == q,
            }
        }),
{
    if q.pending_requests.len() > 0 {
        let x = q.pending_requests[0];
        assert(q.pending_requests =~= seq![x] + q.pending_requests.drop_first());
        lemma_requests_wire_concat(order, seq![x], q.pending_requests.drop_first());
        let (q2, r) = take_spec(q);
        assert(requests_wire(order, seq![x]) + (requests_wire(order, q2.pending_requests) + q2.pending_bytes)
            =~= requests_wire(order, seq![x]) + requests_wire(order, q2.pending_requests) + q2.pending_bytes);
    }
}

/// Framing loses nothing over any run of calls: until a receive fails, the
/// requests handed out, written back in order, followed by the stream that
/// the queue still holds, are the stream it held at the start followed by
/// every byte taken in, in order. From a new queue, the requests handed out
/// and the bytes left are exactly the bytes received: none lost, repeated
/// or reordered.
pub proof fn lemma_queue_run_lossless(order: Endian, q: RequestQueueV, calls: Seq<QueueCall>)
    ensures
        ({
            let (q2, out, taken_in, failed) = queue_run(order, q, calls);
            !failed ==> requests_wire(order, out) + queue_stream(order, q2) == queue_stream(order, q) + taken_in
        }),
    decreases calls.len(),
{
    if calls.len() > 0 {
        lemma_queue_run_lossless(order, q, calls.drop_last());
        let (q1, out, taken_in, failed) = queue_run(order, q, calls.drop_last());
        if !failed {
            match calls.last() {
                QueueCall::Receive { data, fds } => {
                    lemma_receive_stream(order, q1, data, fds);
                    let w = requests_wire(order, out);
                    assert(w + (queue_stream(order, q1) + data) =~= w + queue_stream(order, q1) + data);
                    assert(queue_stream(order, q) + taken_in + data =~= queue_stream(order, q) + (taken_in + data));
                },
                QueueCall::TakeNext => {
                    lemma_take_stream(order, q1);
                    let (q2, r) = take_spec(q1);
                    if let Some(x) = r {
                        lemma_requests_wire_concat(order, out, seq![x]);
                        assert(out.push(x) =~= out + seq![x]);
                        let w = requests_wire(order, out);
                        assert(w + requests_wire(order, seq![x]) + queue_stream(order, q2) =~= w + (requests_wire(order, seq![x])
                            + queue_stream(order, q2)));
                    }
                },
            }
        }
    }
}

} // verus!
