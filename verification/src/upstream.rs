//! Messages from the compositor side of the proxy.
//!
//! Each message starts with a 12-byte header whose first word says what it
//! is. A 0 marks a Wayland event for the client: the other two words are
//! the event's own header (object id, then size and opcode), and the
//! event's arguments follow. Any other value marks a message for the proxy
//! itself, whose size is the second word; the proxy reads it and drops it.

use crate::codec::size_of_word;
use crate::event::RawEvent;
use crate::message::body_word;
use crate::wire::{read_u32_at, Endian};
use vstd::prelude::*;

verus! {

/// The size of the header of a message from the compositor side.
pub const REPLY_HEADER_SIZE: usize = 12;

/// What a message from the compositor side is: 0 for an event to pass on.
pub open spec fn reply_kind(order: Endian, header: Seq<u8>) -> u32 {
    body_word(order, header, 0)
}

/// The size that a header gives its message, the 8 bytes after the first
/// word included.
pub open spec fn reply_size(order: Endian, header: Seq<u8>) -> int {
    if reply_kind(order, header) == 0 {
        size_of_word(body_word(order, header, 2)) as int
    } else {
        body_word(order, header, 1) as int
    }
}

/// How many bytes follow the header: the message's size less the 8 bytes
/// that the header already holds. `None` when the size is smaller than 8.
pub fn reply_body_len(order: Endian, header: &Vec<u8>) -> (r: Option<usize>)
    requires
        header@.len() == REPLY_HEADER_SIZE,
    ensures
        r is None <==> reply_size(order, header@) < 8,
        r matches Some(n) ==> n == reply_size(order, header@) - 8,
{
    let kind = read_u32_at(order, header, 0);
    let size: u32 = if kind == 0 {
        let word = read_u32_at(order, header, 8);
        let size_bits: u32 = word >> 16u32;
        assert(size_bits == word / 65536) by (bit_vector)
            requires
                size_bits == word >> 16u32,
        ;
        size_bits
    } else {
        read_u32_at(order, header, 4)
    };
    if size < 8 {
        None
    } else {
        Some((size - 8) as usize)
    }
}

/// The event that a message carries for the client, if it is one: the
/// event's header (the last two words of the message's header) and the
/// bytes after it, unchanged.
pub fn reply_event(order: Endian, header: &Vec<u8>, body: &Vec<u8>) -> (r: Option<RawEvent>)
    requires
        header@.len() == REPLY_HEADER_SIZE,
    ensures
        reply_kind(order, header@) == 0 ==> (r matches Some(e) && e.data@ == header@.subrange(4, 12) + body@),
        reply_kind(order, header@) != 0 ==> r is None,
{
    let kind = read_u32_at(order, header, 0);
    if kind != 0 {
        return None;
    }
    let mut data: Vec<u8> = Vec::new();
    let mut k: usize = 4;
    while k < REPLY_HEADER_SIZE
        invariant
            4 <= k <= REPLY_HEADER_SIZE,
            header@.len() == REPLY_HEADER_SIZE,
            data@ == header@.subrange(4, k as int),
        decreases REPLY_HEADER_SIZE - k,
    {
        data.push(header[k]);
        k = k + 1;
        assert(header@.subrange(4, k as int) == header@.subrange(4, k - 1) + seq![header@[k - 1]]);
    }
    let mut j: usize = 0;
    while j < body.len()
        invariant
            j <= body@.len(),
            data@ == header@.subrange(4, 12) + body@.subrange(0, j as int),
        decreases body@.len() - j,
    {
        data.push(body[j]);
        j = j + 1;
        assert(body@.subrange(0, j as int) == body@.subrange(0, j - 1) + seq![body@[j - 1]]);
    }
    assert(body@.subrange(0, body@.len() as int) =~= body@);
    Some(RawEvent { data })
}

} // verus!
