use reflex::codec::Request;
use reflex::protocol::wayland::wl_data_device::WlDataDevice;
use reflex::protocol::xdg_shell::xdg_positioner::XdgPositioner;
use reflex::protocol::xdg_shell::xdg_surface::XdgSurface;
use reflex::protocol::xdg_shell::xdg_wm_base::XdgWmBase;
use reflex::protocol::xdg_shell::xdg_toplevel::XdgToplevel;
use reflex::resource::Resource;
use reflex::session::{NextAction, OutEvent, Session};
use reflex::wire::Endian;

fn req(id: u32, opcode: u16, args: Vec<u8>) -> Request {
    Request { sender_object_id: id, opcode, args, fds: Vec::new() }
}

#[test]
fn new_session_holds_the_display() {
    let s = Session::new();
    assert_eq!(s.resources.len(), 1);
    assert!(matches!(s.resources.get(&1), Some(Resource::WlDisplay(_))));
    assert_eq!(s.callback_data, 0);
    assert!(s.fds.is_empty());
}

#[test]
fn unknown_object_is_an_invalid_object_error() {
    let mut s = Session::new();
    let mut r = req(9, 2, vec![1, 2]);
    r.fds = vec![5];
    let resp = s.handle_request(Endian::Little, r);
    assert_eq!(resp.events.len(), 1);
    match &resp.events[0] {
        OutEvent::DisplayError(e) => {
            assert_eq!((e.sender_object_id, e.object_id, e.code), (1, 1, 0));
            assert_eq!(e.message, "object_id=9 opcode=2 args=[1, 2] not found");
        },
        _ => panic!("expected an error"),
    }
    assert_eq!(resp.next_action, NextAction::Nop);
    assert!(resp.relay_buf.is_empty());
    assert!(!resp.stop);
    assert_eq!(s.fds, vec![5]);
    assert_eq!(s.resources.len(), 1);
}

#[test]
fn get_registry_announces_the_globals_and_relays() {
    let mut s = Session::new();
    let resp = s.handle_request(Endian::Little, req(1, 1, vec![2, 0, 0, 0]));
    assert_eq!(resp.events.len(), 4);
    let expected =
        [(1u32, "wl_compositor", 4u32), (2, "wl_data_device_manager", 3), (3, "wl_shm", 1), (4, "xdg_wm_base", 2)];
    for (e, (name, iface, version)) in resp.events.iter().zip(expected.iter()) {
        match e {
            OutEvent::RegistryGlobal(g) => {
                assert_eq!(g.sender_object_id, 2);
                assert_eq!(g.name, *name);
                assert_eq!(g.interface, *iface);
                assert_eq!(g.version, *version);
            },
            _ => panic!("expected a global"),
        }
    }
    assert_eq!(resp.next_action, NextAction::Relay);
    assert_eq!(resp.relay_buf, vec![1, 0, 0, 0, 1, 0, 12, 0, 2, 0, 0, 0]);
    assert!(matches!(s.resources.get(&2), Some(Resource::WlRegistry(_))));
    assert!(matches!(s.resources.get(&1), Some(Resource::WlDisplay(_))));
}

#[test]
fn sync_fires_the_callback_with_the_next_serial() {
    let mut s = Session::new();
    let first = s.handle_request(Endian::Little, req(1, 0, vec![7, 0, 0, 0]));
    match &first.events[0] {
        OutEvent::CallbackDone(d) => assert_eq!((d.sender_object_id, d.callback_data), (7, 1)),
        _ => panic!("expected done"),
    }
    let second = s.handle_request(Endian::Little, req(1, 0, vec![8, 0, 0, 0]));
    match &second.events[0] {
        OutEvent::CallbackDone(d) => assert_eq!((d.sender_object_id, d.callback_data), (8, 2)),
        _ => panic!("expected done"),
    }
    assert_eq!(s.callback_data, 2);
    assert_eq!(second.next_action, NextAction::Relay);
    assert_eq!(second.relay_buf, vec![1, 0, 0, 0, 0, 0, 12, 0, 8, 0, 0, 0]);
}

#[test]
fn bind_installs_the_global_and_relays_the_request() {
    let mut s = Session::new();
    s.handle_request(Endian::Little, req(1, 1, vec![2, 0, 0, 0]));
    let body: Vec<u8> = vec![1, 0, 0, 0, 5, 0, 0, 0];
    let resp = s.handle_request(Endian::Little, req(2, 0, body.clone()));
    assert!(resp.events.is_empty());
    assert!(matches!(s.resources.get(&5), Some(Resource::WlCompositor(_))));
    let mut expected: Vec<u8> = vec![2, 0, 0, 0, 0, 0, 16, 0];
    expected.extend_from_slice(&body);
    assert_eq!(resp.relay_buf, expected);
}

#[test]
fn long_bind_relays_name_and_id() {
    let mut s = Session::new();
    s.handle_request(Endian::Little, req(1, 1, vec![2, 0, 0, 0]));
    let mut body: Vec<u8> = vec![3, 0, 0, 0, 7, 0, 0, 0];
    body.extend_from_slice(b"wl_shm\0\0");
    body.extend_from_slice(&[1, 0, 0, 0, 6, 0, 0, 0]);
    let resp = s.handle_request(Endian::Little, req(2, 0, body));
    assert!(matches!(s.resources.get(&6), Some(Resource::WlShm(_))));
    assert_eq!(resp.next_action, NextAction::Relay);
    assert_eq!(resp.relay_buf, vec![2, 0, 0, 0, 0, 0, 16, 0, 3, 0, 0, 0, 6, 0, 0, 0]);
}

#[test]
fn long_bind_past_the_body_would_panic() {
    let mut s = Session::new();
    s.handle_request(Endian::Little, req(1, 1, vec![2, 0, 0, 0]));
    let body: Vec<u8> = vec![3, 0, 0, 0, 200, 0, 0, 0, 1, 2, 3, 4];
    let r = req(2, 0, body);
    assert!(s.would_panic(Endian::Little, &r));
    assert!(s.try_handle_request(Endian::Little, r).is_none());
    assert!(!s.would_panic(Endian::Little, &req(1, 0, vec![1, 0, 0, 0])));
}

#[test]
fn unknown_opcode_is_an_invalid_method_error() {
    let mut s = Session::new();
    let resp = s.handle_request(Endian::Little, req(1, 5, Vec::new()));
    match &resp.events[0] {
        OutEvent::DisplayError(e) => {
            assert_eq!((e.object_id, e.code), (1, 1));
            assert_eq!(e.message, "opcode=5 args=[] not found");
        },
        _ => panic!("expected an error"),
    }
    assert_eq!(resp.next_action, NextAction::Nop);
}

#[test]
fn create_surface_is_kept_and_not_relayed() {
    let mut s = Session::new();
    s.handle_request(Endian::Little, req(1, 1, vec![2, 0, 0, 0]));
    s.handle_request(Endian::Little, req(2, 0, vec![1, 0, 0, 0, 5, 0, 0, 0]));
    let resp = s.handle_request(Endian::Little, req(5, 0, vec![9, 0, 0, 0]));
    assert!(matches!(s.resources.get(&9), Some(Resource::WlSurface(_))));
    assert_eq!(resp.next_action, NextAction::Nop);
    assert!(resp.relay_buf.is_empty());
    let region = s.handle_request(Endian::Little, req(5, 1, vec![10, 0, 0, 0]));
    assert!(!region.stop);
    assert!(region.events.is_empty());
    assert!(matches!(s.resources.get(&10), Some(Resource::WlRegion(_))));
    assert!(matches!(s.resources.get(&5), Some(Resource::WlCompositor(_))));
}

#[test]
fn fds_are_taken_in_order() {
    let mut s = Session::new();
    s.handle_request(Endian::Little, req(1, 1, vec![2, 0, 0, 0]));
    s.handle_request(Endian::Little, req(2, 0, vec![3, 0, 0, 0, 6, 0, 0, 0]));
    let mut r = req(6, 0, vec![7, 0, 0, 0, 0, 16, 0, 0]);
    r.fds = vec![11, 12];
    let resp = s.handle_request(Endian::Little, r);
    assert_eq!(resp.next_action, NextAction::Relay);
    assert_eq!(s.fds, vec![12]);
}

#[test]
fn every_announced_global_can_be_bound() {
    let mut s = Session::new();
    let globals = s.handle_request(Endian::Little, req(1, 1, vec![2, 0, 0, 0]));
    let mut new_id: u32 = 10;
    for e in globals.events.iter() {
        let (name, iface) = match e {
            OutEvent::RegistryGlobal(g) => (g.name, g.interface.clone()),
            _ => panic!("expected a global"),
        };
        let mut body: Vec<u8> = name.to_le_bytes().to_vec();
        body.extend_from_slice(&new_id.to_le_bytes());
        let resp = s.handle_request(Endian::Little, req(2, 0, body));
        assert!(resp.events.is_empty());
        let bound = s.resources.get(&new_id).unwrap().interface();
        assert_eq!(bound.name(), iface.as_str());
        new_id += 1;
    }
}

#[test]
fn objects_not_named_by_a_request_are_untouched() {
    let mut s = Session::new();
    s.handle_request(Endian::Little, req(1, 1, vec![2, 0, 0, 0]));
    s.handle_request(Endian::Little, req(2, 0, vec![1, 0, 0, 0, 5, 0, 0, 0]));
    let before = s.resources.len();
    s.handle_request(Endian::Little, req(5, 0, vec![9, 0, 0, 0]));
    assert_eq!(s.resources.len(), before + 1);
    assert!(matches!(s.resources.get(&2), Some(Resource::WlRegistry(_))));
    assert!(matches!(s.resources.get(&5), Some(Resource::WlCompositor(_))));
    assert!(matches!(s.resources.get(&1), Some(Resource::WlDisplay(_))));
}

#[test]
fn unimplemented_requests_name_the_method() {
    let mut s = Session::new();
    s.resources.insert(7, Resource::XdgPositioner(XdgPositioner {}));
    s.resources.insert(8, Resource::XdgToplevel(XdgToplevel {}));
    let resp = s.handle_request(Endian::Little, req(7, 0, Vec::new()));
    match &resp.events[0] {
        OutEvent::DisplayError(e) => {
            assert_eq!((e.object_id, e.code), (7, 1));
            assert_eq!(e.message, "xdg_positioner::destroy is not implemented yet");
        },
        _ => panic!("expected an error"),
    }
    let resp = s.handle_request(Endian::Little, req(8, 0, Vec::new()));
    match &resp.events[0] {
        OutEvent::DisplayError(e) => {
            assert_eq!((e.object_id, e.code), (8, 1));
            assert_eq!(e.message, "xdg_toplevel@8::destroy is not implemented yet");
        },
        _ => panic!("expected an error"),
    }
    assert!(matches!(s.resources.get(&7), Some(Resource::XdgPositioner(_))));
    assert_eq!(resp.next_action, NextAction::Nop);
}

fn error_of(resp: &reflex::session::Response) -> (u32, u32, String) {
    assert_eq!(resp.events.len(), 1);
    match &resp.events[0] {
        OutEvent::DisplayError(e) => (e.object_id, e.code, e.message.clone()),
        _ => panic!("expected an error"),
    }
}

#[test]
fn window_geometry_must_have_a_positive_size() {
    let mut s = Session::new();
    s.resources.insert(7, Resource::XdgSurface(XdgSurface {}));
    let mut bad: Vec<u8> = vec![0, 0, 0, 0, 0, 0, 0, 0];
    bad.extend_from_slice(&100i32.to_le_bytes());
    bad.extend_from_slice(&0i32.to_le_bytes());
    let resp = s.handle_request(Endian::Little, req(7, 3, bad));
    assert_eq!(
        error_of(&resp),
        (7, 5, "xdg_surface::set_window_geometry: width and height must be positive".to_string())
    );
    assert_eq!(resp.next_action, NextAction::Nop);
    assert!(resp.relay_buf.is_empty());
    let mut good: Vec<u8> = vec![0, 0, 0, 0, 0, 0, 0, 0];
    good.extend_from_slice(&100i32.to_le_bytes());
    good.extend_from_slice(&50i32.to_le_bytes());
    let resp = s.handle_request(Endian::Little, req(7, 3, good));
    assert!(resp.events.is_empty());
    assert_eq!(resp.next_action, NextAction::Relay);
}

#[test]
fn data_device_release_destroys_it() {
    let mut s = Session::new();
    s.resources.insert(8, Resource::WlDataDevice(WlDataDevice {}));
    let resp = s.handle_request(Endian::Little, req(8, 2, Vec::new()));
    assert!(resp.events.is_empty());
    assert!(s.resources.get(&8).is_none());
    assert!(!resp.stop);
}

#[test]
fn positioner_size_must_be_positive() {
    let mut s = Session::new();
    s.resources.insert(9, Resource::XdgPositioner(XdgPositioner {}));
    let mut body: Vec<u8> = (-1i32).to_le_bytes().to_vec();
    body.extend_from_slice(&10i32.to_le_bytes());
    let resp = s.handle_request(Endian::Little, req(9, 1, body));
    assert_eq!(error_of(&resp), (9, 0, "xdg_positioner::set_size: width and height must be positive".to_string()));
    let mut ok: Vec<u8> = 10i32.to_le_bytes().to_vec();
    ok.extend_from_slice(&10i32.to_le_bytes());
    let resp = s.handle_request(Endian::Little, req(9, 1, ok));
    assert_eq!(error_of(&resp), (9, 1, "xdg_positioner::set_size is not implemented yet".to_string()));
}

#[test]
fn wm_base_destroy_waits_for_its_surfaces() {
    let mut s = Session::new();
    s.resources.insert(4, Resource::XdgWmBase(XdgWmBase {}));
    s.resources.insert(7, Resource::XdgSurface(XdgSurface {}));
    let resp = s.handle_request(Endian::Little, req(4, 0, Vec::new()));
    assert_eq!(error_of(&resp), (4, 1, "xdg_wm_base::destroy: surfaces are still alive".to_string()));
    assert!(matches!(s.resources.get(&4), Some(Resource::XdgWmBase(_))));
    s.resources.remove(&7);
    let resp = s.handle_request(Endian::Little, req(4, 0, Vec::new()));
    assert!(resp.events.is_empty());
    assert_eq!(resp.next_action, NextAction::Relay);
    assert!(s.resources.get(&4).is_none());
}
