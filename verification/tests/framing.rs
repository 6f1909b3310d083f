use bytes::BytesMut;
use reflex::codec::{peek_step, read_frame, Frame, PeekStep, RequestQueue, WaylandCodec};
use reflex::message::{encode_message, Arg};
use reflex::upstream::{reply_body_len, reply_event};
use reflex::wire::Endian;

fn two_messages() -> Vec<u8> {
    vec![
        1, 0, 0, 0, 0, 0, 12, 0, 9, 0, 0, 0, // object 1, opcode 0, one word
        2, 0, 0, 0, 3, 0, 8, 0, // object 2, opcode 3, no arguments
    ]
}

#[test]
fn read_frame_complete() {
    match read_frame(Endian::Little, &two_messages()) {
        Frame::Complete { sender, opcode, args, size } => {
            assert_eq!(sender, 1);
            assert_eq!(opcode, 0);
            assert_eq!(args, vec![9, 0, 0, 0]);
            assert_eq!(size, 12);
        },
        _ => panic!("expected a whole message"),
    }
}

#[test]
fn read_frame_incomplete_and_malformed() {
    let bytes = two_messages();
    assert!(matches!(read_frame(Endian::Little, &bytes[..7].to_vec()), Frame::Incomplete));
    assert!(matches!(read_frame(Endian::Little, &bytes[..11].to_vec()), Frame::Incomplete));
    let bad: Vec<u8> = vec![1, 0, 0, 0, 0, 0, 4, 0];
    assert!(matches!(read_frame(Endian::Little, &bad), Frame::Malformed));
}

#[test]
fn read_frame_big_endian() {
    let bytes: Vec<u8> = vec![0, 0, 0, 5, 0, 8, 0, 2];
    match read_frame(Endian::Big, &bytes) {
        Frame::Complete { sender, opcode, args, size } => {
            assert_eq!((sender, opcode, args.len(), size), (5, 2, 0, 8));
        },
        _ => panic!("expected a whole message"),
    }
}

#[test]
fn codec_decodes_one_message_at_a_time() {
    let _ = WaylandCodec::new();
    let mut codec = WaylandCodec::new();
    let mut src = BytesMut::from(two_messages());
    let first = codec.decode(Endian::Little, &mut src).ok().unwrap().unwrap();
    assert_eq!((first.sender_object_id, first.opcode), (1, 0));
    assert_eq!(first.args, vec![9, 0, 0, 0]);
    assert_eq!(src.len(), 8);
    let second = codec.decode(Endian::Little, &mut src).ok().unwrap().unwrap();
    assert_eq!((second.sender_object_id, second.opcode, second.args.len()), (2, 3, 0));
    assert_eq!(src.len(), 0);
    assert!(codec.decode(Endian::Little, &mut src).ok().unwrap().is_none());
}

#[test]
fn codec_keeps_an_incomplete_message() {
    let mut codec = WaylandCodec::new();
    let mut src = BytesMut::from(vec![1u8, 0, 0, 0, 0, 0, 12, 0, 9]);
    assert!(codec.decode(Endian::Little, &mut src).ok().unwrap().is_none());
    assert_eq!(src.len(), 9);
}

#[test]
fn codec_refuses_a_malformed_header() {
    let mut codec = WaylandCodec::new();
    let mut src = BytesMut::from(vec![1u8, 0, 0, 0, 0, 0, 2, 0]);
    assert!(codec.decode(Endian::Little, &mut src).is_err());
    assert_eq!(src.len(), 8);
}

#[test]
fn queue_gives_fds_to_the_first_request() {
    let mut q = RequestQueue::new();
    assert!(q.take_next().is_none());
    assert!(q.receive(Endian::Little, two_messages(), vec![3, 4]).is_ok());
    let first = q.take_next().unwrap();
    assert_eq!((first.sender_object_id, first.opcode), (1, 0));
    assert_eq!(first.args, vec![9, 0, 0, 0]);
    assert_eq!(first.fds, vec![3, 4]);
    let second = q.take_next().unwrap();
    assert_eq!((second.sender_object_id, second.opcode), (2, 3));
    assert!(second.fds.is_empty());
    assert!(q.take_next().is_none());
}

#[test]
fn queue_joins_a_message_split_across_receives() {
    let mut q = RequestQueue::new();
    let bytes = two_messages();
    assert!(q.receive(Endian::Little, bytes[..5].to_vec(), vec![6]).is_ok());
    assert!(q.take_next().is_none());
    assert!(q.receive(Endian::Little, bytes[5..].to_vec(), Vec::new()).is_ok());
    let first = q.take_next().unwrap();
    assert_eq!(first.sender_object_id, 1);
    assert_eq!(first.fds, vec![6]);
    assert_eq!(q.take_next().unwrap().sender_object_id, 2);
}

#[test]
fn queue_stops_at_a_malformed_header() {
    let mut q = RequestQueue::new();
    let mut bytes = two_messages();
    bytes.extend_from_slice(&[7, 0, 0, 0, 0, 0, 3, 0]);
    assert!(q.receive(Endian::Little, bytes, Vec::new()).is_err());
    assert_eq!(q.take_next().unwrap().sender_object_id, 1);
    assert_eq!(q.take_next().unwrap().sender_object_id, 2);
    assert!(q.take_next().is_none());
}

#[test]
fn peek_step_decisions() {
    assert!(matches!(peek_step(1024, 10, true, false), PeekStep::Grow(2048)));
    assert!(matches!(peek_step(1024, 1024, false, false), PeekStep::Grow(2048)));
    assert!(matches!(peek_step(1024, 10, false, true), PeekStep::Fail));
    assert!(matches!(peek_step(1024, 10, false, false), PeekStep::Receive));
}

#[test]
fn compositor_event_passes_through() {
    let header: Vec<u8> = vec![0, 0, 0, 0, 5, 0, 0, 0, 1, 0, 12, 0];
    assert_eq!(reply_body_len(Endian::Little, &header), Some(4));
    let body: Vec<u8> = vec![9, 0, 0, 0];
    let e = reply_event(Endian::Little, &header, &body).unwrap();
    assert_eq!(e.data, vec![5, 0, 0, 0, 1, 0, 12, 0, 9, 0, 0, 0]);
}

#[test]
fn compositor_message_for_the_proxy() {
    let header: Vec<u8> = vec![2, 0, 0, 0, 20, 0, 0, 0, 0, 0, 0, 0];
    assert_eq!(reply_body_len(Endian::Little, &header), Some(12));
    assert!(reply_event(Endian::Little, &header, &vec![0u8; 12]).is_none());
    let short: Vec<u8> = vec![0, 0, 0, 0, 5, 0, 0, 0, 0, 0, 4, 0];
    assert_eq!(reply_body_len(Endian::Little, &short), None);
}

#[test]
fn encoded_message_frames_back() {
    let bytes = encode_message(Endian::Big, 12, 4, &vec![Arg::Uint(3), Arg::Str("hi".to_string())]).ok().unwrap();
    match read_frame(Endian::Big, &bytes) {
        Frame::Complete { sender, opcode, args, size } => {
            assert_eq!((sender, opcode, size), (12, 4, bytes.len()));
            assert_eq!(args, bytes[8..].to_vec());
        },
        _ => panic!("expected a whole message"),
    }
}

#[test]
fn cut_requests_write_back_to_the_stream() {
    let mut stream = two_messages();
    stream.extend_from_slice(&[3, 0, 0, 0, 1, 0, 16, 0, 1, 2, 3, 4, 5, 6, 7, 8, 9, 9]);
    let mut q = RequestQueue::new();
    assert!(q.receive(Endian::Little, stream.clone(), Vec::new()).is_ok());
    let mut written: Vec<u8> = Vec::new();
    while let Some(r) = q.take_next() {
        written.extend_from_slice(&r.sender_object_id.to_le_bytes());
        let word: u32 = ((8 + r.args.len() as u32) << 16) | r.opcode as u32;
        written.extend_from_slice(&word.to_le_bytes());
        written.extend_from_slice(&r.args);
    }
    assert_eq!(q.pending_len(), (2, 0));
    written.extend_from_slice(&[9, 9]);
    assert_eq!(written, stream);
}
