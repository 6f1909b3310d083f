//! Wayland messages: a header (the object id, then the message size in
//! the upper and the opcode in the lower half of a 32-bit word) followed by
//! the arguments, each padded to a multiple of four bytes.

use crate::wire::{
    i32_bytes, i32_value, lemma_i32_bytes_of_value, lemma_i32_roundtrip, lemma_u32_bytes_of_value,
    lemma_u32_roundtrip, push_i32, push_u32, read_i32_at, read_u32_at, u32_bytes, u32_value, Endian,
};
use vstd::prelude::*;
use vstd::utf8::*;

verus! {

/// The largest message, in bytes, that a header can describe.
pub const MAX_MESSAGE_SIZE: usize = 0xffff;

/// The size of a message header, in bytes.
pub const HEADER_SIZE: usize = 8;

/// One argument of a message, as the wire carries it.
pub enum Arg {
    /// `uint`
    Uint(u32),
    /// `int`
    Int(i32),
    /// `fixed`, carried as its raw 32-bit pattern.
    Fixed(u32),
    /// `object`: the id of an existing object.
    Object(u32),
    /// `new_id`: the id of an object that the message creates.
    NewId(u32),
    /// `string`: its length field counts the terminating NUL.
    Str(String),
    /// A string whose length field leaves out the terminating NUL, as the
    /// seat name and data source mime type events write it.
    StrUncounted(String),
    /// A string whose length field counts its padding too: the room that
    /// the string, its NUL and the zeros after it take.
    StrPadded(String),
    /// `array`
    Array(Vec<u8>),
    /// `fd`, carried in the message body as a signed integer.
    Fd(i32),
}

/// What an argument means, for specifications.
pub enum ArgV {
    Uint(u32),
    Int(i32),
    Fixed(u32),
    Object(u32),
    NewId(u32),
    Str(Seq<char>),
    StrUncounted(Seq<char>),
    StrPadded(Seq<char>),
    Array(Seq<u8>),
    Fd(i32),
}

impl View for Arg {
    type V = ArgV;

    open spec fn view(&self) -> ArgV {
        match self {
            Arg::Uint(v) => ArgV::Uint(*v),
            Arg::Int(v) => ArgV::Int(*v),
            Arg::Fixed(v) => ArgV::Fixed(*v),
            Arg::Object(v) => ArgV::Object(*v),
            Arg::NewId(v) => ArgV::NewId(*v),
            Arg::Str(s) => ArgV::Str(s@),
            Arg::StrUncounted(s) => ArgV::StrUncounted(s@),
            Arg::StrPadded(s) => ArgV::StrPadded(s@),
            Arg::Array(a) => ArgV::Array(a@),
            Arg::Fd(v) => ArgV::Fd(*v),
        }
    }
}

/// The views of a sequence of arguments.
pub open spec fn args_view(args: Seq<Arg>) -> Seq<ArgV> {
    args.map_values(|a: Arg| a@)
}

/// `n` zero bytes.
pub open spec fn zeros(n: int) -> Seq<u8> {
    Seq::new(n as nat, |i: int| 0u8)
}

/// The room that `n` bytes and a terminating NUL take, rounded up to a
/// multiple of four.
pub open spec fn padded_len(n: int) -> int {
    (n + 1 + 3) / 4 * 4
}

/// A length field, then the bytes, then zeros up to `padded_len`.
pub open spec fn blob_wire(order: Endian, len_field: u32, bytes: Seq<u8>) -> Seq<u8> {
    u32_bytes(order, len_field) + bytes + zeros(padded_len(bytes.len() as int) - bytes.len())
}

/// The bytes of one argument.
pub open spec fn arg_wire(order: Endian, a: ArgV) -> Seq<u8> {
    match a {
        ArgV::Uint(v) => u32_bytes(order, v),
        ArgV::Int(v) => i32_bytes(order, v),
        ArgV::Fixed(v) => u32_bytes(order, v),
        ArgV::Object(v) => u32_bytes(order, v),
        ArgV::NewId(v) => u32_bytes(order, v),
        ArgV::Str(s) => blob_wire(order, (encode_utf8(s).len() + 1) as u32, encode_utf8(s)),
        ArgV::StrUncounted(s) => blob_wire(order, encode_utf8(s).len() as u32, encode_utf8(s)),
        ArgV::StrPadded(s) => blob_wire(order, padded_len(encode_utf8(s).len() as int) as u32, encode_utf8(s)),
        ArgV::Array(b) => blob_wire(order, b.len() as u32, b),
        ArgV::Fd(v) => i32_bytes(order, v),
    }
}

/// The size of one argument on the wire.
pub open spec fn arg_size(a: ArgV) -> int {
    match a {
        ArgV::Str(s) => 4 + padded_len(encode_utf8(s).len() as int),
        ArgV::StrUncounted(s) => 4 + padded_len(encode_utf8(s).len() as int),
        ArgV::StrPadded(s) => 4 + padded_len(encode_utf8(s).len() as int),
        ArgV::Array(b) => 4 + padded_len(b.len() as int),
        _ => 4,
    }
}

/// The bytes of a sequence of arguments, one after the other.
pub open spec fn args_wire(order: Endian, args: Seq<ArgV>) -> Seq<u8>
    decreases args.len(),
{
    if args.len() == 0 {
        Seq::empty()
    } else {
        args_wire(order, args.drop_last()) + arg_wire(order, args.last())
    }
}

/// The total size of a sequence of arguments.
pub open spec fn args_size(args: Seq<ArgV>) -> int
    decreases args.len(),
{
    if args.len() == 0 {
        0
    } else {
        args_size(args.drop_last()) + arg_size(args.last())
    }
}

/// The second word of a header: the size above, the opcode below.
pub open spec fn size_and_opcode(size: int, opcode: u16) -> u32 {
    (size * 65536 + opcode) as u32
}

/// The bytes of a whole message.
pub open spec fn message_wire(order: Endian, sender: u32, opcode: u16, args: Seq<ArgV>) -> Seq<u8> {
    let body = args_wire(order, args);
    u32_bytes(order, sender) + u32_bytes(order, size_and_opcode(8 + body.len() as int, opcode)) + body
}

pub proof fn lemma_arg_wire_len(order: Endian, a: ArgV)
    ensures
        arg_wire(order, a).len() == arg_size(a),
        arg_size(a) >= 4,
{
    lemma_u32_roundtrip(order, 0);
    match a {
        ArgV::Uint(v) => lemma_u32_roundtrip(order, v),
        ArgV::Int(v) => lemma_i32_roundtrip(order, v),
        ArgV::Fixed(v) => lemma_u32_roundtrip(order, v),
        ArgV::Object(v) => lemma_u32_roundtrip(order, v),
        ArgV::NewId(v) => lemma_u32_roundtrip(order, v),
        ArgV::Str(s) => lemma_u32_roundtrip(order, (encode_utf8(s).len() + 1) as u32),
        ArgV::StrUncounted(s) => lemma_u32_roundtrip(order, encode_utf8(s).len() as u32),
        ArgV::StrPadded(s) => lemma_u32_roundtrip(order, padded_len(encode_utf8(s).len() as int) as u32),
        ArgV::Array(b) => lemma_u32_roundtrip(order, b.len() as u32),
        ArgV::Fd(v) => lemma_i32_roundtrip(order, v),
    }
}

pub proof fn lemma_args_wire_len(order: Endian, args: Seq<ArgV>)
    ensures
        args_wire(order, args).len() == args_size(args),
        args_size(args) >= 4 * args.len(),
    decreases args.len(),
{
    if args.len() > 0 {
        lemma_args_wire_len(order, args.drop_last());
        lemma_arg_wire_len(order, args.last());
    }
}

/// The message would not fit the 16-bit size field of its header.
pub enum EncodeError {
    TooLong,
}

/// The size of a length-prefixed blob of `n` bytes, or `0x10000` when it
/// is larger than that.
fn capped_blob_size(n: usize) -> (r: usize)
    ensures
        r == if 4 + padded_len(n as int) < 0x10000 { 4 + padded_len(n as int) } else { 0x10000 },
{
    if n < 0x10000 {
        let v = 4 + (n + 1 + 3) / 4 * 4;
        if v < 0x10000 { v } else { 0x10000 }
    } else {
        0x10000
    }
}

/// The size of one argument, or `0x10000` when it is larger than that.
fn arg_size_capped(a: &Arg) -> (r: usize)
    ensures
        r == if arg_size(a@) < 0x10000 { arg_size(a@) } else { 0x10000 },
{
    match a {
        Arg::Str(s) => {
            let n = s.as_str().as_bytes().len();
            capped_blob_size(n)
        },
        Arg::StrUncounted(s) => {
            let n = s.as_str().as_bytes().len();
            capped_blob_size(n)
        },
        Arg::StrPadded(s) => {
            let n = s.as_str().as_bytes().len();
            capped_blob_size(n)
        },
        Arg::Array(b) => {
            capped_blob_size(b.len())
        },
        _ => 4,
    }
}

/// Appends `bytes` and then zeros up to `padded_len`.
fn push_padded(out: &mut Vec<u8>, bytes: &[u8])
    requires
        old(out)@.len() + padded_len(bytes@.len() as int) <= usize::MAX,
    ensures
        final(out)@ == old(out)@ + bytes@ + zeros(padded_len(bytes@.len() as int) - bytes@.len()),
{
    let n = bytes.len();
    let mut i: usize = 0;
    while i < n
        invariant
            i <= n,
            n == bytes@.len(),
            out@ == old(out)@ + bytes@.subrange(0, i as int),
            old(out)@.len() + padded_len(n as int) <= usize::MAX,
        decreases n - i,
    {
        out.push(bytes[i]);
        i = i + 1;
        assert(bytes@.subrange(0, i as int) == bytes@.subrange(0, i - 1) + seq![bytes@[i - 1]]);
    }
    assert(bytes@.subrange(0, n as int) == bytes@);
    let pad: usize = (n + 1 + 3) / 4 * 4 - n;
    let mut j: usize = 0;
    while j < pad
        invariant
            j <= pad,
            pad == padded_len(n as int) - n,
            n == bytes@.len(),
            out@ == old(out)@ + bytes@ + zeros(j as int),
            old(out)@.len() + padded_len(n as int) <= usize::MAX,
        decreases pad - j,
    {
        out.push(0u8);
        j = j + 1;
        assert(zeros(j as int) == zeros(j - 1) + seq![0u8]);
    }
}

/// Appends a length field, the bytes, and zeros up to `padded_len`.
fn push_blob(order: Endian, out: &mut Vec<u8>, len_field: u32, bytes: &[u8])
    requires
        old(out)@.len() + 4 + padded_len(bytes@.len() as int) <= usize::MAX,
    ensures
        final(out)@ == old(out)@ + blob_wire(order, len_field, bytes@),
{
    push_u32(order, out, len_field);
    push_padded(out, bytes);
    assert(out@ =~= old(out)@ + blob_wire(order, len_field, bytes@));
}

/// Appends the bytes of one argument.
fn push_arg(order: Endian, out: &mut Vec<u8>, a: &Arg)
    requires
        old(out)@.len() + arg_size(a@) <= usize::MAX,
    ensures
        final(out)@ == old(out)@ + arg_wire(order, a@),
{
    match a {
        Arg::Uint(v) => push_u32(order, out, *v),
        Arg::Int(v) => push_i32(order, out, *v),
        Arg::Fixed(v) => push_u32(order, out, *v),
        Arg::Object(v) => push_u32(order, out, *v),
        Arg::NewId(v) => push_u32(order, out, *v),
        Arg::Fd(v) => push_i32(order, out, *v),
        Arg::Str(s) => {
            let bytes = s.as_str().as_bytes();
            push_blob(order, out, (bytes.len() + 1) as u32, bytes);
        },
        Arg::StrUncounted(s) => {
            let bytes = s.as_str().as_bytes();
            push_blob(order, out, bytes.len() as u32, bytes);
        },
        Arg::StrPadded(s) => {
            let bytes = s.as_str().as_bytes();
            push_blob(order, out, ((bytes.len() + 1 + 3) / 4 * 4) as u32, bytes);
        },
        Arg::Array(b) => {
            push_blob(order, out, b.len() as u32, b.as_slice());
        },
    }
}

/// Encodes a whole message: the header, then the arguments in order.
/// Fails exactly when the message is longer than `MAX_MESSAGE_SIZE`.
pub fn encode_message(order: Endian, sender: u32, opcode: u16, args: &Vec<Arg>) -> (r: Result<
    Vec<u8>,
    EncodeError,
>)
    ensures
        r is Ok <==> message_wire(order, sender, opcode, args_view(args@)).len() <= 0xffff,
        r matches Ok(v) ==> v@ == message_wire(order, sender, opcode, args_view(args@)),
{
    let ghost av = args_view(args@);
    let mut total: usize = 8;
    let mut i: usize = 0;
    while i < args.len()
        invariant
            i <= args.len(),
            av == args_view(args@),
            total == 8 + args_size(av.subrange(0, i as int)),
            total <= 0xffff,
        decreases args.len() - i,
    {
        let s = arg_size_capped(&args[i]);
        assert(av.subrange(0, i + 1).drop_last() == av.subrange(0, i as int));
        if s > 0xffff - total {
            proof {
                lemma_args_size_prefix(av, i + 1);
                lemma_args_wire_len(order, av);
                lemma_u32_roundtrip(order, 0);
            }
            return Err(EncodeError::TooLong);
        }
        total = total + s;
        i = i + 1;
    }
    assert(av.subrange(0, args.len() as int) == av);
    proof {
        lemma_args_wire_len(order, av);
    }
    let mut out: Vec<u8> = Vec::new();
    push_u32(order, &mut out, sender);
    push_u32(order, &mut out, ((total as u32) * 65536) + (opcode as u32));
    let ghost head = out@;
    let mut j: usize = 0;
    while j < args.len()
        invariant
            j <= args.len(),
            av == args_view(args@),
            total == 8 + args_size(av),
            total <= 0xffff,
            out@ == head + args_wire(order, av.subrange(0, j as int)),
            head.len() == 8,
        decreases args.len() - j,
    {
        proof {
            lemma_args_wire_len(order, av.subrange(0, j as int));
            lemma_args_size_prefix(av, j + 1);
            assert(av.subrange(0, j + 1).drop_last() == av.subrange(0, j as int));
        }
        push_arg(order, &mut out, &args[j]);
        j = j + 1;
    }
    assert(av.subrange(0, args.len() as int) == av);
    proof {
        lemma_u32_roundtrip(order, sender);
    }
    Ok(out)
}

/// A prefix of a sequence of arguments is no larger than the whole.
proof fn lemma_args_size_prefix(args: Seq<ArgV>, k: int)
    requires
        0 <= k <= args.len(),
    ensures
        args_size(args.subrange(0, k)) <= args_size(args),
    decreases args.len() - k,
{
    if k < args.len() {
        lemma_args_size_prefix(args, k + 1);
        assert(args.subrange(0, k + 1).drop_last() == args.subrange(0, k));
        lemma_arg_wire_len(Endian::Little, args[k]);
    } else {
        assert(args.subrange(0, k) =~= args);
    }
}

/// The type of an argument that a request carries.
#[derive(Clone, Copy, Debug, PartialEq, Eq, Structural)]
pub enum ArgKind {
    Uint,
    Int,
    Object,
    NewId,
    Str,
    Fd,
}

/// `n` rounded up to a multiple of four.
pub open spec fn pad4(n: int) -> int {
    (n + 3) / 4 * 4
}

/// Decodes the arguments of kinds `kinds[i..]` from `bytes` at `pos`,
/// taking file descriptors from the front of `fds`, after the arguments
/// `acc` already decoded. Returns the arguments (or `None` when the bytes do
/// not hold them, a string is not UTF-8, no file descriptor is left, or
/// bytes remain at the end) and the file descriptors left over.
///
/// A string is read as its length field, that many bytes (the terminating
/// NUL among them), and padding up to a multiple of four.
pub open spec fn decode_from(
    order: Endian,
    kinds: Seq<ArgKind>,
    i: int,
    bytes: Seq<u8>,
    pos: int,
    fds: Seq<i32>,
    acc: Seq<ArgV>,
) -> (Option<Seq<ArgV>>, Seq<i32>)
    decreases kinds.len() - i,
{
    if i < 0 || i >= kinds.len() {
        if pos == bytes.len() {
            (Some(acc), fds)
        } else {
            (None, fds)
        }
    } else {
        match kinds[i] {
            ArgKind::Fd => if fds.len() > 0 {
                decode_from(order, kinds, i + 1, bytes, pos, fds.drop_first(), acc.push(ArgV::Fd(fds[0])))
            } else {
                (None, fds)
            },
            _ => if pos + 4 > bytes.len() {
                (None, fds)
            } else {
                let word = bytes.subrange(pos, pos + 4);
                match kinds[i] {
                    ArgKind::Uint => decode_from(order, kinds, i + 1, bytes, pos + 4, fds, acc.push(ArgV::Uint(u32_value(order, word)))),
                    ArgKind::Int => decode_from(order, kinds, i + 1, bytes, pos + 4, fds, acc.push(ArgV::Int(i32_value(order, word)))),
                    ArgKind::Object => decode_from(order, kinds, i + 1, bytes, pos + 4, fds, acc.push(ArgV::Object(u32_value(order, word)))),
                    ArgKind::NewId => decode_from(order, kinds, i + 1, bytes, pos + 4, fds, acc.push(ArgV::NewId(u32_value(order, word)))),
                    _ => {
                        let n = u32_value(order, word) as int;
                        if pos + 4 + n > bytes.len() {
                            (None, fds)
                        } else {
                            let b = bytes.subrange(pos + 4, pos + 4 + n);
                            if valid_utf8(b) {
                                decode_from(order, kinds, i + 1, bytes, pos + 4 + pad4(n), fds, acc.push(ArgV::Str(decode_utf8(b))))
                            } else {
                                (None, fds)
                            }
                        }
                    },
                }
            },
        }
    }
}

/// Decodes arguments of the given kinds from a request body.
pub open spec fn decode_args_spec(order: Endian, kinds: Seq<ArgKind>, bytes: Seq<u8>, fds: Seq<i32>) -> (
    Option<Seq<ArgV>>,
    Seq<i32>,
) {
    decode_from(order, kinds, 0, bytes, 0, fds, Seq::empty())
}

/// Calls `String::from_utf8`; claims that it succeeds exactly on valid
/// UTF-8 and then holds the characters that the bytes encode.
#[verifier::external_body]
fn string_from_utf8(v: Vec<u8>) -> (r: Option<String>)
    ensures
        r is Some <==> valid_utf8(v@),
        r matches Some(s) ==> s@ == decode_utf8(v@),
{
    String::from_utf8(v).ok()
}

/// Copies `bytes[from..to]`.
pub(crate) fn copy_range(bytes: &Vec<u8>, from: usize, to: usize) -> (r: Vec<u8>)
    requires
        from <= to <= bytes@.len(),
    ensures
        r@ == bytes@.subrange(from as int, to as int),
{
    let mut r: Vec<u8> = Vec::new();
    let mut k = from;
    while k < to
        invariant
            from <= k <= to,
            to <= bytes@.len(),
            r@ == bytes@.subrange(from as int, k as int),
        decreases to - k,
    {
        r.push(bytes[k]);
        k = k + 1;
        assert(bytes@.subrange(from as int, k as int) == bytes@.subrange(from as int, k - 1) + seq![bytes@[k - 1]]);
    }
    r
}

/// Decodes the arguments of a request, in order, taking file descriptors
/// from the front of `fds`. On failure the file descriptors taken before
/// the failure stay taken.
pub fn decode_args(order: Endian, kinds: &Vec<ArgKind>, bytes: &Vec<u8>, fds: &mut Vec<i32>) -> (r:
    Option<Vec<Arg>>)
    requires
        bytes@.len() <= 0xffff,
    ensures
        (match r {
            Some(v) => Some(args_view(v@)),
            None => None,
        }, final(fds)@) == decode_args_spec(order, kinds@, bytes@, old(fds)@),
{
    let mut out: Vec<Arg> = Vec::new();
    let mut i: usize = 0;
    let mut pos: usize = 0;
    let len = bytes.len();
    assert(args_view(out@) =~= Seq::<ArgV>::empty());
    while i < kinds.len()
        invariant
            i <= kinds@.len(),
            len == bytes@.len(),
            len <= 0xffff,
            pos <= len + 3,
            decode_args_spec(order, kinds@, bytes@, old(fds)@) == decode_from(
                order,
                kinds@,
                i as int,
                bytes@,
                pos as int,
                fds@,
                args_view(out@),
            ),
        decreases kinds.len() - i,
    {
        let k = kinds[i];
        let ghost before = args_view(out@);
        match k {
            ArgKind::Fd => {
                if fds.len() == 0 {
                    return None;
                }
                let fd = fds.remove(0);
                out.push(Arg::Fd(fd));
                assert(args_view(out@) =~= before.push(ArgV::Fd(fd)));
            },
            _ => {
                if pos + 4 > len {
                    return None;
                }
                match k {
                    ArgKind::Uint => {
                        let v = read_u32_at(order, bytes, pos);
                        out.push(Arg::Uint(v));
                        assert(args_view(out@) =~= before.push(ArgV::Uint(v)));
                        pos = pos + 4;
                    },
                    ArgKind::Int => {
                        let v = read_i32_at(order, bytes, pos);
                        out.push(Arg::Int(v));
                        assert(args_view(out@) =~= before.push(ArgV::Int(v)));
                        pos = pos + 4;
                    },
                    ArgKind::Object => {
                        let v = read_u32_at(order, bytes, pos);
                        out.push(Arg::Object(v));
                        assert(args_view(out@) =~= before.push(ArgV::Object(v)));
                        pos = pos + 4;
                    },
                    ArgKind::NewId => {
                        let v = read_u32_at(order, bytes, pos);
                        out.push(Arg::NewId(v));
                        assert(args_view(out@) =~= before.push(ArgV::NewId(v)));
                        pos = pos + 4;
                    },
                    _ => {
                        let n = read_u32_at(order, bytes, pos);
                        if n as usize > len - (pos + 4) {
                            return None;
                        }
                        let start = pos + 4;
                        let end = start + n as usize;
                        let buf = copy_range(bytes, start, end);
                        match string_from_utf8(buf) {
                            Some(s) => {
                                let ghost sv = s@;
                                out.push(Arg::Str(s));
                                assert(args_view(out@) =~= before.push(ArgV::Str(sv)));
                                pos = start + (n as usize + 3) / 4 * 4;
                            },
                            None => {
                                return None;
                            },
                        }
                    },
                }
            },
        }
        i = i + 1;
    }
    if pos != len {
        return None;
    }
    Some(out)
}

/// Copies all of `bytes`.
pub(crate) fn copy_bytes(bytes: &Vec<u8>) -> (r: Vec<u8>)
    ensures
        r@ == bytes@,
{
    let r = copy_range(bytes, 0, bytes.len());
    assert(bytes@.subrange(0, bytes@.len() as int) =~= bytes@);
    r
}

/// Whether a kind is one of the kinds carried as a single 32-bit word.
pub open spec fn is_word_kind(k: ArgKind) -> bool {
    k == ArgKind::Uint || k == ArgKind::Int || k == ArgKind::Object || k == ArgKind::NewId
}

/// Whether an argument is a `uint`, an `int`, an `object` or a `new_id`.
pub open spec fn is_word_arg(a: ArgV) -> bool {
    a is Uint || a is Int || a is Object || a is NewId
}

/// The kind that a word argument decodes from.
pub open spec fn kind_of(a: ArgV) -> ArgKind {
    match a {
        ArgV::Int(_) => ArgKind::Int,
        ArgV::Object(_) => ArgKind::Object,
        ArgV::NewId(_) => ArgKind::NewId,
        ArgV::Str(_) => ArgKind::Str,
        ArgV::Fd(_) => ArgKind::Fd,
        _ => ArgKind::Uint,
    }
}

/// The bytes of two sequences of arguments are the bytes of each, one after
/// the other.
pub proof fn lemma_args_wire_concat(order: Endian, a: Seq<ArgV>, b: Seq<ArgV>)
    ensures
        args_wire(order, a + b) == args_wire(order, a) + args_wire(order, b),
    decreases b.len(),
{
    if b.len() == 0 {
        assert(a + b =~= a);
        assert(args_wire(order, a) + args_wire(order, b) =~= args_wire(order, a));
    } else {
        lemma_args_wire_concat(order, a, b.drop_last());
        assert((a + b).drop_last() =~= a + b.drop_last());
        assert((a + b).last() == b.last());
        assert(args_wire(order, a + b) =~= args_wire(order, a) + args_wire(order, b));
    }
}

proof fn lemma_decode_encoded_words_from(order: Endian, args: Seq<ArgV>, i: int, fds: Seq<i32>)
    requires
        0 <= i <= args.len(),
        forall|j: int| 0 <= j < args.len() ==> is_word_arg(#[trigger] args[j]),
    ensures
        decode_from(
            order,
            args.map_values(|a: ArgV| kind_of(a)),
            i,
            args_wire(order, args),
            args_wire(order, args.subrange(0, i)).len() as int,
            fds,
            args.subrange(0, i),
        ) == (Some(args), fds),
    decreases args.len() - i,
{
    let kinds = args.map_values(|a: ArgV| kind_of(a));
    let bytes = args_wire(order, args);
    let pos = args_wire(order, args.subrange(0, i)).len() as int;
    if i == args.len() {
        assert(args.subrange(0, i) =~= args);
    } else {
        let a = args[i];
        assert(is_word_arg(a));
        lemma_args_wire_concat(order, args.subrange(0, i + 1), args.subrange(i + 1, args.len() as int));
        assert(args.subrange(0, i + 1) + args.subrange(i + 1, args.len() as int) =~= args);
        assert(args.subrange(0, i + 1).drop_last() =~= args.subrange(0, i));
        assert(args.subrange(0, i + 1).last() == a);
        let w = arg_wire(order, a);
        lemma_arg_wire_len(order, a);
        assert(bytes.subrange(pos, pos + 4) =~= w);
        match a {
            ArgV::Uint(v) => lemma_u32_roundtrip(order, v),
            ArgV::Int(v) => lemma_i32_roundtrip(order, v),
            ArgV::Object(v) => lemma_u32_roundtrip(order, v),
            ArgV::NewId(v) => lemma_u32_roundtrip(order, v),
            _ => {},
        }
        assert(args.subrange(0, i).push(a) =~= args.subrange(0, i + 1));
        lemma_decode_encoded_words_from(order, args, i + 1, fds);
    }
}

/// Decoding undoes encoding: the bytes of `uint`, `int`, `object` and
/// `new_id` arguments decode, by their kinds, to the same arguments, and no
/// file descriptor is taken.
pub proof fn lemma_decode_encoded_words(order: Endian, args: Seq<ArgV>, fds: Seq<i32>)
    requires
        forall|j: int| 0 <= j < args.len() ==> is_word_arg(#[trigger] args[j]),
    ensures
        decode_args_spec(order, args.map_values(|a: ArgV| kind_of(a)), args_wire(order, args), fds) == (
            Some(args),
            fds,
        ),
{
    assert(args.subrange(0, 0) =~= Seq::<ArgV>::empty());
    lemma_decode_encoded_words_from(order, args, 0, fds);
}

/// The UTF-8 bytes of a string with a NUL after it are the string's bytes
/// followed by a zero byte.
pub proof fn lemma_encode_utf8_push_nul(s: Seq<char>)
    ensures
        encode_utf8(s.push('\0')) == encode_utf8(s).push(0u8),
    decreases s.len(),
{
    if s.len() == 0 {
        assert(s.push('\0') =~= seq!['\0']);
        assert(seq!['\0'].drop_first() =~= Seq::<char>::empty());
        assert(('\0' as u32) == 0u32);
        assert((0u32 & 0x7F) as u8 == 0u8) by (bit_vector);
        assert(leading_byte_width_1(0u32) == 0u8);
        assert(encode_scalar(0u32) =~= seq![0u8]);
        assert(seq!['\0'][0] == '\0');
        assert(encode_utf8(Seq::<char>::empty()) =~= Seq::<u8>::empty());
        assert(encode_utf8(seq!['\0']) == encode_scalar(seq!['\0'][0] as u32) + encode_utf8(seq!['\0'].drop_first()));
        assert(encode_utf8(seq!['\0']) =~= seq![0u8]);
        assert(encode_utf8(s).push(0u8) =~= seq![0u8]);
    } else {
        assert(s.push('\0').drop_first() =~= s.drop_first().push('\0'));
        assert(s.push('\0')[0] == s[0]);
        lemma_encode_utf8_push_nul(s.drop_first());
        assert(encode_utf8(s.push('\0')) =~= encode_utf8(s).push(0u8));
    }
}

/// Whether an argument is a word argument or a `string`.
pub open spec fn is_word_or_string_arg(a: ArgV) -> bool {
    is_word_arg(a) || a is Str
}

/// Whether a string argument's length field (its bytes and its NUL) fits
/// in 32 bits; true of other arguments.
pub open spec fn length_fits(a: ArgV) -> bool {
    a matches ArgV::Str(s) ==> encode_utf8(s).len() + 1 <= u32::MAX
}

/// An argument as decoding reads it back: a string keeps the NUL that
/// ended it on the wire.
pub open spec fn read_back(a: ArgV) -> ArgV {
    match a {
        ArgV::Str(s) => ArgV::Str(s.push('\0')),
        _ => a,
    }
}

proof fn lemma_decode_encoded_from(order: Endian, args: Seq<ArgV>, i: int, fds: Seq<i32>)
    requires
        0 <= i <= args.len(),
        forall|j: int| 0 <= j < args.len() ==> is_word_or_string_arg(#[trigger] args[j]) && length_fits(args[j]),
    ensures
        decode_from(
            order,
            args.map_values(|a: ArgV| kind_of(a)),
            i,
            args_wire(order, args),
            args_wire(order, args.subrange(0, i)).len() as int,
            fds,
            args.subrange(0, i).map_values(|a: ArgV| read_back(a)),
        ) == (Some(args.map_values(|a: ArgV| read_back(a))), fds),
    decreases args.len() - i,
{
    let kinds = args.map_values(|a: ArgV| kind_of(a));
    let bytes = args_wire(order, args);
    let pos = args_wire(order, args.subrange(0, i)).len() as int;
    if i == args.len() {
        assert(args.subrange(0, i) =~= args);
    } else {
        let a = args[i];
        assert(is_word_or_string_arg(a) && length_fits(a));
        lemma_args_wire_concat(order, args.subrange(0, i + 1), args.subrange(i + 1, args.len() as int));
        assert(args.subrange(0, i + 1) + args.subrange(i + 1, args.len() as int) =~= args);
        assert(args.subrange(0, i + 1).drop_last() =~= args.subrange(0, i));
        assert(args.subrange(0, i + 1).last() == a);
        let w = arg_wire(order, a);
        lemma_arg_wire_len(order, a);
        lemma_args_wire_len(order, args.subrange(0, i + 1));
        assert(bytes.subrange(pos, pos + w.len()) =~= w);
        match a {
            ArgV::Uint(v) => {
                lemma_u32_roundtrip(order, v);
                assert(bytes.subrange(pos, pos + 4) =~= w);
            },
            ArgV::Int(v) => {
                lemma_i32_roundtrip(order, v);
                assert(bytes.subrange(pos, pos + 4) =~= w);
            },
            ArgV::Object(v) => {
                lemma_u32_roundtrip(order, v);
                assert(bytes.subrange(pos, pos + 4) =~= w);
            },
            ArgV::NewId(v) => {
                lemma_u32_roundtrip(order, v);
                assert(bytes.subrange(pos, pos + 4) =~= w);
            },
            ArgV::Str(st) => {
                let e = encode_utf8(st);
                let n = (e.len() + 1) as u32;
                assert(n == e.len() + 1);
                lemma_u32_roundtrip(order, n);
                assert(bytes.subrange(pos, pos + 4) =~= u32_bytes(order, n));
                assert(padded_len(e.len() as int) - e.len() >= 1);
                assert(zeros(padded_len(e.len() as int) - e.len())[0] == 0u8);
                assert(bytes.subrange(pos + 4, pos + 4 + n) =~= e.push(0u8));
                lemma_encode_utf8_push_nul(st);
                encode_utf8_valid_utf8(st.push('\0'));
                encode_utf8_decode_utf8(st.push('\0'));
                assert(pad4(n as int) == padded_len(e.len() as int));
            },
            _ => {},
        }
        assert(args.subrange(0, i).map_values(|a: ArgV| read_back(a)).push(read_back(a)) =~= args.subrange(0, i + 1).map_values(
            |a: ArgV| read_back(a),
        ));
        lemma_decode_encoded_from(order, args, i + 1, fds);
    }
}

/// Decoding undoes encoding, strings included: the bytes of `uint`, `int`,
/// `object`, `new_id` and `string` arguments decode, by their kinds, to the
/// same arguments, each string with the NUL that ended it, and no file
/// descriptor is taken. A string takes its length field, its bytes and its
/// NUL, padded to a multiple of four.
pub proof fn lemma_decode_encoded(order: Endian, args: Seq<ArgV>, fds: Seq<i32>)
    requires
        forall|j: int| 0 <= j < args.len() ==> is_word_or_string_arg(#[trigger] args[j]) && length_fits(args[j]),
    ensures
        decode_args_spec(order, args.map_values(|a: ArgV| kind_of(a)), args_wire(order, args), fds) == (
            Some(args.map_values(|a: ArgV| read_back(a))),
            fds,
        ),
{
    assert(args.subrange(0, 0) =~= Seq::<ArgV>::empty());
    assert(args.subrange(0, 0).map_values(|a: ArgV| read_back(a)) =~= Seq::<ArgV>::empty());
    lemma_decode_encoded_from(order, args, 0, fds);
}

proof fn lemma_encode_decoded_words_from(
    order: Endian,
    kinds: Seq<ArgKind>,
    i: int,
    bytes: Seq<u8>,
    pos: int,
    fds: Seq<i32>,
    acc: Seq<ArgV>,
)
    requires
        0 <= i <= kinds.len(),
        0 <= pos <= bytes.len(),
        forall|j: int| 0 <= j < kinds.len() ==> is_word_kind(#[trigger] kinds[j]),
    ensures
        decode_from(order, kinds, i, bytes, pos, fds, acc).0 matches Some(vals) ==> args_wire(order, vals)
            == args_wire(order, acc) + bytes.subrange(pos, bytes.len() as int),
    decreases kinds.len() - i,
{
    if i == kinds.len() {
        if pos == bytes.len() {
            assert(bytes.subrange(pos, bytes.len() as int) =~= Seq::<u8>::empty());
            assert(args_wire(order, acc) + Seq::<u8>::empty() =~= args_wire(order, acc));
        }
    } else if pos + 4 <= bytes.len() {
        let word = bytes.subrange(pos, pos + 4);
        let a = match kinds[i] {
            ArgKind::Int => ArgV::Int(i32_value(order, word)),
            ArgKind::Object => ArgV::Object(u32_value(order, word)),
            ArgKind::NewId => ArgV::NewId(u32_value(order, word)),
            _ => ArgV::Uint(u32_value(order, word)),
        };
        assert(is_word_kind(kinds[i]));
        lemma_u32_bytes_of_value(order, word);
        lemma_i32_bytes_of_value(order, word);
        assert(arg_wire(order, a) == word);
        assert(acc.push(a).drop_last() =~= acc);
        lemma_encode_decoded_words_from(order, kinds, i + 1, bytes, pos + 4, fds, acc.push(a));
        assert(bytes.subrange(pos, bytes.len() as int) =~= word + bytes.subrange(pos + 4, bytes.len() as int));
        assert(args_wire(order, acc.push(a)) == args_wire(order, acc) + word);
        assert(args_wire(order, acc) + word + bytes.subrange(pos + 4, bytes.len() as int) =~= args_wire(order, acc)
            + bytes.subrange(pos, bytes.len() as int));
    }
}

/// Encoding undoes decoding: when a request body decodes by `uint`, `int`,
/// `object` and `new_id` kinds, the bytes of the decoded arguments are the
/// body.
pub proof fn lemma_encode_decoded_words(order: Endian, kinds: Seq<ArgKind>, bytes: Seq<u8>, fds: Seq<i32>)
    requires
        forall|j: int| 0 <= j < kinds.len() ==> is_word_kind(#[trigger] kinds[j]),
    ensures
        decode_args_spec(order, kinds, bytes, fds).0 matches Some(vals) ==> args_wire(order, vals) == bytes,
{
    lemma_encode_decoded_words_from(order, kinds, 0, bytes, 0, fds, Seq::empty());
    assert(bytes.subrange(0, bytes.len() as int) =~= bytes);
    assert(Seq::<u8>::empty() + bytes =~= bytes);
}

/// The sequence `out` is what is left of `all` after some items were taken
/// from its front.
pub open spec fn is_suffix_of<T>(out: Seq<T>, all: Seq<T>) -> bool {
    out.len() <= all.len() && out == all.subrange(all.len() - out.len(), all.len() as int)
}

/// Decoding takes file descriptors from the front only: what it leaves is a
/// suffix of what it was given.
pub proof fn lemma_decode_fds_suffix(
    order: Endian,
    kinds: Seq<ArgKind>,
    i: int,
    bytes: Seq<u8>,
    pos: int,
    fds: Seq<i32>,
    acc: Seq<ArgV>,
)
    ensures
        is_suffix_of(decode_from(order, kinds, i, bytes, pos, fds, acc).1, fds),
    decreases kinds.len() - i,
{
    if i < 0 || i >= kinds.len() {
        assert(fds.subrange(0, fds.len() as int) =~= fds);
    } else {
        match kinds[i] {
            ArgKind::Fd => if fds.len() > 0 {
                lemma_decode_fds_suffix(order, kinds, i + 1, bytes, pos, fds.drop_first(), acc.push(ArgV::Fd(fds[0])));
                let out = decode_from(order, kinds, i, bytes, pos, fds, acc).1;
                assert(out =~= fds.subrange(fds.len() - out.len(), fds.len() as int));
            } else {
                assert(fds.subrange(0, fds.len() as int) =~= fds);
            },
            _ => if pos + 4 > bytes.len() {
                assert(fds.subrange(0, fds.len() as int) =~= fds);
            } else {
                let word = bytes.subrange(pos, pos + 4);
                match kinds[i] {
                    ArgKind::Uint => lemma_decode_fds_suffix(order, kinds, i + 1, bytes, pos + 4, fds, acc.push(ArgV::Uint(u32_value(order, word)))),
                    ArgKind::Int => lemma_decode_fds_suffix(order, kinds, i + 1, bytes, pos + 4, fds, acc.push(ArgV::Int(i32_value(order, word)))),
                    ArgKind::Object => lemma_decode_fds_suffix(order, kinds, i + 1, bytes, pos + 4, fds, acc.push(ArgV::Object(u32_value(order, word)))),
                    ArgKind::NewId => lemma_decode_fds_suffix(order, kinds, i + 1, bytes, pos + 4, fds, acc.push(ArgV::NewId(u32_value(order, word)))),
                    _ => {
                        let n = u32_value(order, word) as int;
                        if pos + 4 + n > bytes.len() {
                            assert(fds.subrange(0, fds.len() as int) =~= fds);
                        } else {
                            let b = bytes.subrange(pos + 4, pos + 4 + n);
                            if valid_utf8(b) {
                                lemma_decode_fds_suffix(order, kinds, i + 1, bytes, pos + 4 + pad4(n), fds, acc.push(ArgV::Str(decode_utf8(b))));
                            } else {
                                assert(fds.subrange(0, fds.len() as int) =~= fds);
                            }
                        }
                    },
                }
            },
        }
    }
}

/// The `j`-th 32-bit word of a message body, unsigned.
pub open spec fn body_word(order: Endian, args: Seq<u8>, j: int) -> u32 {
    u32_value(order, args.subrange(4 * j, 4 * j + 4))
}

/// The `j`-th 32-bit word of a message body, signed.
pub open spec fn body_int(order: Endian, args: Seq<u8>, j: int) -> i32 {
    i32_value(order, args.subrange(4 * j, 4 * j + 4))
}

/// Whether `k` is one of the 32-bit words of a message body.
pub open spec fn carries_word(order: Endian, args: Seq<u8>, k: u32) -> bool {
    exists|j: int| 0 <= j && 4 * j + 4 <= args.len() && #[trigger] body_word(order, args, j) == k
}

/// The bytes of a message are its header (the sender, then the word of its
/// size and opcode), then the bytes of its arguments.
pub proof fn lemma_message_bytes(order: Endian, sender: u32, opcode: u16, args: Seq<ArgV>)
    ensures
        message_wire(order, sender, opcode, args) == u32_bytes(order, sender) + u32_bytes(
            order,
            size_and_opcode(8 + args_size(args), opcode),
        ) + args_wire(order, args),
{
    lemma_args_wire_len(order, args);
}

} // verus!
