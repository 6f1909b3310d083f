use reflex::message::{decode_args, encode_message, Arg, ArgKind, EncodeError};
use reflex::wire::{push_i32, push_u32, read_i32_at, read_u32_at, Endian};

#[test]
fn push_u32_in_both_orders() {
    let mut v: Vec<u8> = Vec::new();
    push_u32(Endian::Little, &mut v, 0x0102_0304);
    assert_eq!(v, vec![4, 3, 2, 1]);
    push_u32(Endian::Big, &mut v, 0x0102_0304);
    assert_eq!(v, vec![4, 3, 2, 1, 1, 2, 3, 4]);
}

#[test]
fn push_i32_negative() {
    let mut v: Vec<u8> = Vec::new();
    push_i32(Endian::Little, &mut v, -2);
    push_i32(Endian::Big, &mut v, -2);
    assert_eq!(v, vec![0xfe, 0xff, 0xff, 0xff, 0xff, 0xff, 0xff, 0xfe]);
}

#[test]
fn read_words_at_an_offset() {
    let v: Vec<u8> = vec![9, 4, 3, 2, 1, 0xff];
    assert_eq!(read_u32_at(Endian::Little, &v, 1), 0x0102_0304);
    assert_eq!(read_u32_at(Endian::Big, &v, 1), 0x0403_0201);
    let w: Vec<u8> = vec![0xfe, 0xff, 0xff, 0xff];
    assert_eq!(read_i32_at(Endian::Little, &w, 0), -2);
    assert_eq!(read_i32_at(Endian::Big, &w, 0), -16_777_217);
}

#[test]
fn encode_header_and_words() {
    let args = vec![Arg::Uint(1), Arg::Int(-1)];
    let bytes = encode_message(Endian::Little, 7, 3, &args).ok().unwrap();
    assert_eq!(bytes, vec![7, 0, 0, 0, 3, 0, 16, 0, 1, 0, 0, 0, 0xff, 0xff, 0xff, 0xff]);
    let big = encode_message(Endian::Big, 7, 3, &args).ok().unwrap();
    assert_eq!(big, vec![0, 0, 0, 7, 0, 16, 0, 3, 0, 0, 0, 1, 0xff, 0xff, 0xff, 0xff]);
}

#[test]
fn encode_strings_count_their_nul() {
    let bytes = encode_message(Endian::Little, 1, 0, &vec![Arg::Str("ab".to_string())]).ok().unwrap();
    assert_eq!(bytes, vec![1, 0, 0, 0, 0, 0, 16, 0, 3, 0, 0, 0, 97, 98, 0, 0]);
    let four = encode_message(Endian::Little, 1, 0, &vec![Arg::Str("abcd".to_string())]).ok().unwrap();
    assert_eq!(four, vec![1, 0, 0, 0, 0, 0, 20, 0, 5, 0, 0, 0, 97, 98, 99, 100, 0, 0, 0, 0]);
}

#[test]
fn encode_string_length_variants() {
    let uncounted = encode_message(Endian::Little, 1, 0, &vec![Arg::StrUncounted("ab".to_string())]).ok().unwrap();
    assert_eq!(uncounted, vec![1, 0, 0, 0, 0, 0, 16, 0, 2, 0, 0, 0, 97, 98, 0, 0]);
    let padded = encode_message(Endian::Little, 1, 0, &vec![Arg::StrPadded("ab".to_string())]).ok().unwrap();
    assert_eq!(padded, vec![1, 0, 0, 0, 0, 0, 16, 0, 4, 0, 0, 0, 97, 98, 0, 0]);
}

#[test]
fn encode_array_reserves_room_for_a_nul() {
    let bytes = encode_message(Endian::Little, 2, 1, &vec![Arg::Array(vec![1, 2, 3, 4])]).ok().unwrap();
    assert_eq!(bytes, vec![2, 0, 0, 0, 1, 0, 20, 0, 4, 0, 0, 0, 1, 2, 3, 4, 0, 0, 0, 0]);
}

#[test]
fn encode_fd_in_body() {
    let bytes = encode_message(Endian::Little, 2, 0, &vec![Arg::Fd(5)]).ok().unwrap();
    assert_eq!(bytes, vec![2, 0, 0, 0, 0, 0, 12, 0, 5, 0, 0, 0]);
}

#[test]
fn encode_too_long() {
    let big: Vec<u8> = vec![0u8; 0xfff0];
    let r = encode_message(Endian::Little, 1, 0, &vec![Arg::Array(big)]);
    assert!(matches!(r, Err(EncodeError::TooLong)));
    let fits: Vec<u8> = vec![0u8; 0xffe0];
    assert!(encode_message(Endian::Little, 1, 0, &vec![Arg::Array(fits)]).is_ok());
}

#[test]
fn decode_words() {
    let kinds = vec![ArgKind::Uint, ArgKind::Int, ArgKind::Object, ArgKind::NewId];
    let bytes: Vec<u8> = vec![5, 0, 0, 0, 0xff, 0xff, 0xff, 0xff, 6, 0, 0, 0, 7, 0, 0, 0];
    let mut fds: Vec<i32> = vec![3];
    let args = decode_args(Endian::Little, &kinds, &bytes, &mut fds).unwrap();
    assert_eq!(args.len(), 4);
    assert!(matches!(args[0], Arg::Uint(5)));
    assert!(matches!(args[1], Arg::Int(-1)));
    assert!(matches!(args[2], Arg::Object(6)));
    assert!(matches!(args[3], Arg::NewId(7)));
    assert_eq!(fds, vec![3]);
}

#[test]
fn decode_string_keeps_its_nul() {
    let kinds = vec![ArgKind::Str, ArgKind::Uint];
    let bytes: Vec<u8> = vec![3, 0, 0, 0, 97, 98, 0, 0, 9, 0, 0, 0];
    let mut fds: Vec<i32> = Vec::new();
    let args = decode_args(Endian::Little, &kinds, &bytes, &mut fds).unwrap();
    match &args[0] {
        Arg::Str(s) => assert_eq!(s.as_str(), "ab\u{0}"),
        _ => panic!("not a string"),
    }
    assert!(matches!(args[1], Arg::Uint(9)));
}

#[test]
fn decode_fds_from_the_front() {
    let kinds = vec![ArgKind::Fd, ArgKind::Uint, ArgKind::Fd];
    let bytes: Vec<u8> = vec![1, 0, 0, 0];
    let mut fds: Vec<i32> = vec![7, 8, 9];
    let args = decode_args(Endian::Little, &kinds, &bytes, &mut fds).unwrap();
    assert!(matches!(args[0], Arg::Fd(7)));
    assert!(matches!(args[1], Arg::Uint(1)));
    assert!(matches!(args[2], Arg::Fd(8)));
    assert_eq!(fds, vec![9]);
}

#[test]
fn decode_refuses_bad_bodies() {
    let mut fds: Vec<i32> = Vec::new();
    let short: Vec<u8> = vec![1, 0, 0];
    assert!(decode_args(Endian::Little, &vec![ArgKind::Uint], &short, &mut fds).is_none());
    let trailing: Vec<u8> = vec![1, 0, 0, 0, 2];
    assert!(decode_args(Endian::Little, &vec![ArgKind::Uint], &trailing, &mut fds).is_none());
    let not_utf8: Vec<u8> = vec![2, 0, 0, 0, 0xff, 0, 0, 0];
    assert!(decode_args(Endian::Little, &vec![ArgKind::Str], &not_utf8, &mut fds).is_none());
    let past_end: Vec<u8> = vec![9, 0, 0, 0, 97, 0, 0, 0];
    assert!(decode_args(Endian::Little, &vec![ArgKind::Str], &past_end, &mut fds).is_none());
    let empty: Vec<u8> = Vec::new();
    assert!(decode_args(Endian::Little, &vec![ArgKind::Fd], &empty, &mut fds).is_none());
}

#[test]
fn decode_then_encode_gives_the_body_back() {
    let kinds = vec![ArgKind::NewId, ArgKind::Int, ArgKind::Uint];
    let body: Vec<u8> = vec![3, 0, 0, 0, 0xfe, 0xff, 0xff, 0xff, 0, 1, 0, 0];
    let mut fds: Vec<i32> = Vec::new();
    let args = decode_args(Endian::Little, &kinds, &body, &mut fds).unwrap();
    let bytes = encode_message(Endian::Little, 4, 2, &args).ok().unwrap();
    assert_eq!(&bytes[8..], &body[..]);
    assert_eq!(&bytes[..8], &[4, 0, 0, 0, 2, 0, 20, 0]);
}
