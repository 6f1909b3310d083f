use bytes::BytesMut;
use reflex::codec::WaylandRequest;
use reflex::event::Event;
use reflex::server::{ObjectKind, ServerEvent, ServerObject, ServerState, WlDisplayError, WlRegistryGlobal};
use reflex::wire::Endian;

fn req(id: u32, opcode: u16, args: Vec<u8>) -> WaylandRequest {
    WaylandRequest { sender_object_id: id, opcode, args }
}

fn error_of(events: &Vec<ServerEvent>) -> (u32, u32, String) {
    assert_eq!(events.len(), 1);
    match &events[0] {
        ServerEvent::DisplayError(e) => (e.object_id, e.code, e.message.clone()),
        _ => panic!("expected an error"),
    }
}

fn with_registry() -> ServerState {
    let mut s = ServerState::new();
    s.handle_request(Endian::Little, &req(1, 1, vec![2, 0, 0, 0]));
    s
}

#[test]
fn new_server_holds_the_display() {
    let s = ServerState::new();
    assert_eq!(s.objects.len(), 1);
    assert_eq!(s.objects.get(&1), Some(&ServerObject::WlDisplay));
    assert_eq!((s.compositor_name, s.shm_name, s.xdg_wm_base_name), (1, 2, 3));
    assert_eq!(s.next_callback_data, 0);
}

#[test]
fn get_registry_announces_the_globals() {
    let mut s = ServerState::new();
    let events = s.handle_request(Endian::Little, &req(1, 1, vec![2, 0, 0, 0]));
    assert_eq!(events.len(), 3);
    let expected = [(1u32, "wl_compositor", 1u32), (2, "wl_shm", 1), (3, "xdg_wm_base", 2)];
    for (e, (name, iface, version)) in events.iter().zip(expected.iter()) {
        match e {
            ServerEvent::RegistryGlobal(g) => {
                assert_eq!((g.sender_object_id, g.name, g.version), (2, *name, *version));
                assert_eq!(g.interface, *iface);
            },
            _ => panic!("expected a global"),
        }
    }
    assert_eq!(s.objects.get(&2), Some(&ServerObject::WlRegistry));
}

#[test]
fn binding_shm_announces_two_formats() {
    let mut s = with_registry();
    let events = s.handle_request(Endian::Little, &req(2, 0, vec![2, 0, 0, 0, 4, 0, 0, 0]));
    assert_eq!(events.len(), 2);
    match (&events[0], &events[1]) {
        (ServerEvent::ShmFormat(a), ServerEvent::ShmFormat(b)) => {
            assert_eq!((a.sender_object_id, a.format), (4, 0));
            assert_eq!((b.sender_object_id, b.format), (4, 1));
        },
        _ => panic!("expected two formats"),
    }
    assert_eq!(s.objects.get(&4), Some(&ServerObject::WlShm));
}

#[test]
fn binding_every_announced_global() {
    let mut s = with_registry();
    assert!(s.handle_request(Endian::Little, &req(2, 0, vec![1, 0, 0, 0, 5, 0, 0, 0])).is_empty());
    assert!(s.handle_request(Endian::Little, &req(2, 0, vec![3, 0, 0, 0, 6, 0, 0, 0])).is_empty());
    assert_eq!(s.objects.get(&5), Some(&ServerObject::WlCompositor));
    assert_eq!(s.objects.get(&6), Some(&ServerObject::XdgWmBase));
}

#[test]
fn binding_an_unknown_name_is_an_error() {
    let mut s = with_registry();
    let events = s.handle_request(Endian::Little, &req(2, 0, vec![9, 0, 0, 0, 5, 0, 0, 0]));
    assert_eq!(error_of(&events), (2, 1, "WlRegistry@2.bind(name=9, id=5) not found".to_string()));
    assert!(s.objects.get(&5).is_none());
}

#[test]
fn long_bind_with_the_interface_name() {
    let mut s = with_registry();
    let mut body: Vec<u8> = vec![1, 0, 0, 0, 14, 0, 0, 0];
    body.extend_from_slice(b"wl_compositor\0\0\0");
    body.extend_from_slice(&[4, 0, 0, 0, 7, 0, 0, 0]);
    assert!(!s.would_panic(Endian::Little, &req(2, 0, body.clone())));
    assert!(s.handle_request(Endian::Little, &req(2, 0, body)).is_empty());
    assert_eq!(s.objects.get(&7), Some(&ServerObject::WlCompositor));
}

#[test]
fn long_bind_of_the_wrong_length_is_refused() {
    let mut s = with_registry();
    let mut body: Vec<u8> = vec![1, 0, 0, 0, 2, 0, 0, 0, 97, 0, 0, 0, 4, 0, 0, 0, 7, 0, 0, 0, 0, 0, 0, 0];
    let events = s.handle_request(Endian::Little, &req(2, 0, body.clone()));
    let (object, code, message) = error_of(&events);
    assert_eq!((object, code), (2, 1));
    assert!(message.starts_with("WlRegistry@2 opcode=0 args=[1, 0, 0, 0, 2"));
    body.truncate(12);
    assert!(s.would_panic(Endian::Little, &req(2, 0, body.clone())));
    assert!(s.try_handle_request(Endian::Little, &req(2, 0, body)).is_none());
}

#[test]
fn sync_serials_count_up() {
    let mut s = ServerState::new();
    let a = s.handle_request(Endian::Little, &req(1, 0, vec![7, 0, 0, 0]));
    let b = s.handle_request(Endian::Little, &req(1, 0, vec![8, 0, 0, 0, 9]));
    match (&a[0], &b[0]) {
        (ServerEvent::CallbackDone(x), ServerEvent::CallbackDone(y)) => {
            assert_eq!((x.sender_object_id, x.callback_data), (7, 1));
            assert_eq!((y.sender_object_id, y.callback_data), (8, 2));
        },
        _ => panic!("expected done events"),
    }
    s.next_callback_data = u32::MAX;
    assert!(s.would_panic(Endian::Little, &req(1, 0, vec![7, 0, 0, 0])));
}

#[test]
fn unknown_object_and_unknown_request() {
    let mut s = ServerState::new();
    let events = s.handle_request(Endian::Little, &req(4, 1, vec![]));
    assert_eq!(error_of(&events), (1, 0, "object_id=4 opcode=1 args=[] not found".to_string()));
    let events = s.handle_request(Endian::Little, &req(1, 7, vec![1]));
    assert_eq!(error_of(&events), (1, 1, "WlDisplay@1 opcode=7 args=[1] not found".to_string()));
}

#[test]
fn surfaces_pools_and_buffers() {
    let mut s = with_registry();
    s.handle_request(Endian::Little, &req(2, 0, vec![1, 0, 0, 0, 3, 0, 0, 0]));
    s.handle_request(Endian::Little, &req(2, 0, vec![2, 0, 0, 0, 4, 0, 0, 0]));
    assert!(s.handle_request(Endian::Little, &req(3, 0, vec![10, 0, 0, 0])).is_empty());
    assert_eq!(s.objects.get(&10), Some(&ServerObject::WlSurface));
    let pool = vec![11, 0, 0, 0, 5, 0, 0, 0, 0, 16, 0, 0];
    assert!(s.handle_request(Endian::Little, &req(4, 0, pool)).is_empty());
    assert_eq!(s.objects.get(&11), Some(&ServerObject::WlShmPool { fd: 5, size: 4096 }));
    let buffer = vec![12, 0, 0, 0, 0, 0, 0, 0, 64, 0, 0, 0, 32, 0, 0, 0, 0, 1, 0, 0, 1, 0, 0, 0];
    assert!(s.handle_request(Endian::Little, &req(11, 0, buffer)).is_empty());
    assert_eq!(
        s.objects.get(&12),
        Some(&ServerObject::WlBuffer { offset: 0, width: 64, height: 32, stride: 256, format: 1 })
    );
    assert!(s.handle_request(Endian::Little, &req(10, 6, vec![])).is_empty());
    let bad = s.handle_request(Endian::Little, &req(10, 2, vec![]));
    assert_eq!(error_of(&bad), (10, 1, "WlSurface@10 opcode=2 args=[] not found".to_string()));
}

#[test]
fn destroyed_objects_are_gone() {
    let mut s = with_registry();
    s.handle_request(Endian::Little, &req(2, 0, vec![1, 0, 0, 0, 3, 0, 0, 0]));
    s.handle_request(Endian::Little, &req(3, 0, vec![10, 0, 0, 0]));
    assert!(s.handle_request(Endian::Little, &req(10, 1, vec![])).is_empty());
    assert!(s.objects.get(&10).is_none());
    let events = s.handle_request(Endian::Little, &req(10, 6, vec![]));
    assert_eq!(error_of(&events), (1, 0, "object_id=10 opcode=6 args=[] not found".to_string()));
}

#[test]
fn xdg_surfaces_need_a_wl_surface() {
    let mut s = with_registry();
    s.handle_request(Endian::Little, &req(2, 0, vec![1, 0, 0, 0, 3, 0, 0, 0]));
    s.handle_request(Endian::Little, &req(2, 0, vec![3, 0, 0, 0, 5, 0, 0, 0]));
    let missing = s.handle_request(Endian::Little, &req(5, 2, vec![20, 0, 0, 0, 10, 0, 0, 0]));
    assert_eq!(
        error_of(&missing),
        (5, 1, "XdgWmBase@5::get_xdg_surface(xdg_surface_id=20 wl_surface_id=10): wl_surface not found".to_string())
    );
    s.handle_request(Endian::Little, &req(3, 0, vec![10, 0, 0, 0]));
    assert!(s.handle_request(Endian::Little, &req(5, 2, vec![20, 0, 0, 0, 10, 0, 0, 0])).is_empty());
    assert_eq!(s.objects.get(&20), Some(&ServerObject::XdgSurface { wl_surface_id: 10, wm_base_id: 5 }));
    assert!(s.handle_request(Endian::Little, &req(20, 1, vec![21, 0, 0, 0])).is_empty());
    assert_eq!(s.objects.get(&21), Some(&ServerObject::XdgToplevel));
    let positioner = s.handle_request(Endian::Little, &req(5, 1, vec![22, 0, 0, 0]));
    assert_eq!(
        error_of(&positioner),
        (5, 1, "XdgWmBase@5::create_positioner(xdg_positioner_id=22): wl_surface not found".to_string())
    );
}

#[test]
fn server_events_use_the_padded_length() {
    let e = WlDisplayError { object_id: 3, code: 1, message: "abc".to_string() };
    let mut dst = BytesMut::new();
    assert!(e.encode(Endian::Little, &mut dst).is_ok());
    assert_eq!(dst.to_vec(), vec![1, 0, 0, 0, 0, 0, 24, 0, 3, 0, 0, 0, 1, 0, 0, 0, 4, 0, 0, 0, 97, 98, 99, 0]);
    let g = WlRegistryGlobal { sender_object_id: 2, name: 1, interface: "wl_shm".to_string(), version: 1 };
    let mut dst = BytesMut::new();
    assert!(ServerEvent::RegistryGlobal(g).encode(Endian::Little, &mut dst).is_ok());
    assert_eq!(
        dst.to_vec(),
        vec![2, 0, 0, 0, 0, 0, 28, 0, 1, 0, 0, 0, 8, 0, 0, 0, 119, 108, 95, 115, 104, 109, 0, 0, 1, 0, 0, 0]
    );
}

#[test]
fn server_wm_base_destroy_waits_for_its_surfaces() {
    let mut s = with_registry();
    s.handle_request(Endian::Little, &req(2, 0, vec![1, 0, 0, 0, 3, 0, 0, 0]));
    s.handle_request(Endian::Little, &req(2, 0, vec![3, 0, 0, 0, 5, 0, 0, 0]));
    s.handle_request(Endian::Little, &req(3, 0, vec![10, 0, 0, 0]));
    assert!(s.handle_request(Endian::Little, &req(5, 2, vec![20, 0, 0, 0, 10, 0, 0, 0])).is_empty());
    let refused = s.handle_request(Endian::Little, &req(5, 0, vec![]));
    assert_eq!(error_of(&refused), (5, 1, "XdgWmBase::destroy: surfaces are still alive".to_string()));
    assert_eq!(s.objects.get(&5), Some(&ServerObject::XdgWmBase));
    assert!(s.handle_request(Endian::Little, &req(20, 0, vec![])).is_empty());
    assert!(s.handle_request(Endian::Little, &req(5, 0, vec![])).is_empty());
    assert!(s.objects.get(&5).is_none());
}

#[test]
fn sync_and_bind_called_directly() {
    let mut s = ServerState::new();
    let a = s.sync(7);
    let b = s.sync(8);
    match (&a[0], &b[0]) {
        (ServerEvent::CallbackDone(x), ServerEvent::CallbackDone(y)) => assert_eq!((x.callback_data, y.callback_data), (1, 2)),
        _ => panic!("expected done events"),
    }
    let globals = s.get_registry(2);
    for (k, g) in globals.iter().enumerate() {
        let name = match g {
            ServerEvent::RegistryGlobal(g) => g.name,
            _ => panic!("expected a global"),
        };
        let id = 30 + k as u32;
        for e in s.bind(2, name, id).iter() {
            assert!(!matches!(e, ServerEvent::DisplayError(_)));
        }
        assert!(s.objects.get(&id).is_some());
    }
}

#[test]
fn destroy_if_checks_the_kind() {
    let mut s = with_registry();
    s.handle_request(Endian::Little, &req(2, 0, vec![1, 0, 0, 0, 3, 0, 0, 0]));
    s.handle_request(Endian::Little, &req(3, 0, vec![10, 0, 0, 0]));
    assert!(!s.destroy_if(10, ObjectKind::WlBuffer));
    assert_eq!(s.objects.get(&10), Some(&ServerObject::WlSurface));
    assert!(!s.destroy_if(11, ObjectKind::WlSurface));
    assert!(s.destroy_if(10, ObjectKind::WlSurface));
    assert!(s.objects.get(&10).is_none());
    assert_eq!(ServerObject::WlShmPool { fd: 1, size: 2 }.kind(), ObjectKind::WlShmPool);
}
