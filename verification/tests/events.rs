use bytes::BytesMut;
use reflex::event::{Event, RawEvent};
use reflex::protocol::wayland::wl_callback::events::Done;
use reflex::protocol::wayland::wl_display::events::Error;
use reflex::protocol::wayland::wl_output::enums::{Subpixel, Transform};
use reflex::protocol::wayland::wl_output::events::Geometry;
use reflex::wire::Endian;

#[test]
fn geometry_event_bytes() {
    let g = Geometry {
        sender_object_id: 5,
        x: 1,
        y: -1,
        physical_width: 300,
        physical_height: 200,
        subpixel: 0,
        make: "ab".to_string(),
        model: "xyz1".to_string(),
        transform: 3,
    };
    let mut dst = BytesMut::new();
    assert!(g.encode(Endian::Little, &mut dst).is_ok());
    let expected: Vec<u8> = vec![
        5, 0, 0, 0, 0, 0, 52, 0, // header: 52 bytes, opcode 0
        1, 0, 0, 0, 0xff, 0xff, 0xff, 0xff, 44, 1, 0, 0, 200, 0, 0, 0, 0, 0, 0, 0, //
        3, 0, 0, 0, 97, 98, 0, 0, // "ab"
        5, 0, 0, 0, 120, 121, 122, 49, 0, 0, 0, 0, // "xyz1"
        3, 0, 0, 0,
    ];
    assert_eq!(dst.to_vec(), expected);
}

#[test]
fn events_append_to_what_is_there() {
    let mut dst = BytesMut::from(vec![0xaau8]);
    let d = Done { sender_object_id: 7, callback_data: 2 };
    assert!(d.encode(Endian::Little, &mut dst).is_ok());
    assert_eq!(dst.to_vec(), vec![0xaa, 7, 0, 0, 0, 0, 0, 12, 0, 2, 0, 0, 0]);
}

#[test]
fn display_error_bytes() {
    let e = Error { sender_object_id: 1, object_id: 3, code: 1, message: "no".to_string() };
    let mut dst = BytesMut::new();
    assert!(e.encode(Endian::Little, &mut dst).is_ok());
    assert_eq!(dst.to_vec(), vec![1, 0, 0, 0, 0, 0, 24, 0, 3, 0, 0, 0, 1, 0, 0, 0, 3, 0, 0, 0, 110, 111, 0, 0]);
}

#[test]
fn too_long_event_leaves_the_buffer() {
    let e = Error { sender_object_id: 1, object_id: 3, code: 1, message: "x".repeat(0x10000) };
    let mut dst = BytesMut::from(vec![1u8, 2]);
    assert!(e.encode(Endian::Little, &mut dst).is_err());
    assert_eq!(dst.to_vec(), vec![1, 2]);
}

#[test]
fn raw_event_passes_bytes_through() {
    let r = RawEvent { data: vec![1, 2, 3] };
    let mut dst = BytesMut::new();
    assert!(r.encode(Endian::Big, &mut dst).is_ok());
    assert_eq!(dst.to_vec(), vec![1, 2, 3]);
}

#[test]
fn enum_values_round_trip() {
    assert_eq!(Transform::TransformFlipped90.value(), 5);
    assert!(matches!(Transform::from_value(5), Some(Transform::TransformFlipped90)));
    assert!(Transform::from_value(8).is_none());
    assert_eq!(Subpixel::NoGeometry.value(), 1);
    assert!(matches!(Subpixel::from_value(1), Some(Subpixel::NoGeometry)));
}
