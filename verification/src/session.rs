//! The per-connection state machine of the proxy.
//!
//! A session holds the client's objects by id, the serial of the last
//! `wl_display.sync` callback and the file descriptors received and not yet
//! consumed. For every request it decides which events go back to the client
//! and whether the request is relayed to the compositor; the I/O around it
//! (reading requests, sending events, relaying bytes) is the caller's.

use crate::codec::{frame_spec, lemma_frame_of_message, FrameV, Request, RequestV};
use crate::event::{Event, RawEvent};
use crate::interface::{Handler, Interface};
use crate::message::{
    args_view, args_wire, body_int, body_word, carries_word, decode_args, decode_args_spec, encode_message, is_suffix_of, is_word_kind,
    decode_from, lemma_decode_fds_suffix, lemma_encode_decoded_words, message_wire, pad4, size_and_opcode, Arg, ArgKind, ArgV, EncodeError,
};
use crate::protocol::wayland::wl_callback::events::Done;
use crate::protocol::wayland::wl_compositor::{self, WlCompositor};
use crate::protocol::wayland::wl_data_device_manager::{self, WlDataDeviceManager};
use crate::protocol::wayland::wl_display::events::Error;
use crate::protocol::wayland::wl_display::{self, WlDisplay};
use crate::protocol::wayland::wl_registry::events::Global;
use crate::protocol::wayland::wl_registry::{self, WlRegistry};
use crate::protocol::wayland::wl_shm::{self, WlShm};
use crate::protocol::wayland::wl_region::WlRegion;
use crate::protocol::wayland::wl_surface::WlSurface;
use crate::protocol::xdg_shell::xdg_wm_base::{self, XdgWmBase};
use crate::protocol::xdg_shell::{xdg_positioner, xdg_surface};
use crate::resource::Resource;
use crate::text::{
    debug_bytes, method_unimplemented_message, method_unimplemented_text, object_method_unimplemented_message,
    object_method_unimplemented_text, object_not_found_message, object_not_found_text,
    object_opcode_not_found_message, object_opcode_not_found_text, opcode_not_found_message,
    opcode_not_found_text,
};
use crate::wire::{lemma_u32_roundtrip, read_u32_at, u32_bytes, u32_value, Endian};
use bytes::BytesMut;
use std::collections::HashMap;
use vstd::prelude::*;

verus! {

broadcast use vstd::std_specs::hash::group_hash_axioms;
use vstd::std_specs::hash::spec_hash_map_iter;
use vstd::std_specs::iter::IteratorSpec;

/// The object id of the `wl_display` singleton.
pub const DISPLAY_OBJECT_ID: u32 = 1;

/// The `wl_display` error code for a request to an object that does not exist.
pub const INVALID_OBJECT: u32 = 0;

/// The `wl_display` error code for a request that the object does not take.
pub const INVALID_METHOD: u32 = 1;

/// What to do with a request once it is handled.
#[derive(Clone, Copy, Debug, PartialEq, Eq, Structural)]
pub enum NextAction {
    /// Nothing more.
    Nop,
    /// Pass the request on to the compositor.
    Relay,
    /// Pass the request on to the compositor and wait for it to be written.
    RelayWait,
}

/// An event that a session sends back to its client.
pub enum OutEvent {
    DisplayError(Error),
    RegistryGlobal(Global),
    CallbackDone(Done),
}

/// What an outgoing event holds, for specifications.
pub enum OutEventV {
    DisplayError { sender_object_id: u32, object_id: u32, code: u32, message: Seq<char> },
    RegistryGlobal { sender_object_id: u32, name: u32, interface: Seq<char>, version: u32 },
    CallbackDone { sender_object_id: u32, callback_data: u32 },
}

impl View for OutEvent {
    type V = OutEventV;

    open spec fn view(&self) -> OutEventV {
        match self {
            OutEvent::DisplayError(e) => OutEventV::DisplayError {
                sender_object_id: e.sender_object_id,
                object_id: e.object_id,
                code: e.code,
                message: e.message@,
            },
            OutEvent::RegistryGlobal(g) => OutEventV::RegistryGlobal {
                sender_object_id: g.sender_object_id,
                name: g.name,
                interface: g.interface@,
                version: g.version,
            },
            OutEvent::CallbackDone(d) => OutEventV::CallbackDone {
                sender_object_id: d.sender_object_id,
                callback_data: d.callback_data,
            },
        }
    }
}

impl Event for OutEvent {
    open spec fn wire(&self, order: Endian) -> Seq<u8> {
        match self {
            OutEvent::DisplayError(e) => e.wire(order),
            OutEvent::RegistryGlobal(e) => e.wire(order),
            OutEvent::CallbackDone(e) => e.wire(order),
        }
    }

    open spec fn encodable(&self, order: Endian) -> bool {
        match self {
            OutEvent::DisplayError(e) => e.encodable(order),
            OutEvent::RegistryGlobal(e) => e.encodable(order),
            OutEvent::CallbackDone(e) => e.encodable(order),
        }
    }

    fn encode(&self, order: Endian, dst: &mut BytesMut) -> (r: Result<(), EncodeError>) {
        match self {
            OutEvent::DisplayError(e) => e.encode(order, dst),
            OutEvent::RegistryGlobal(e) => e.encode(order, dst),
            OutEvent::CallbackDone(e) => e.encode(order, dst),
        }
    }
}

/// Everything that goes to a client: the events a session answers with, and
/// the events that the compositor sends, passed on as they are.
pub enum ClientEvent {
    Session(OutEvent),
    Raw(RawEvent),
}

impl Event for ClientEvent {
    open spec fn wire(&self, order: Endian) -> Seq<u8> {
        match self {
            ClientEvent::Session(e) => e.wire(order),
            ClientEvent::Raw(e) => e.wire(order),
        }
    }

    open spec fn encodable(&self, order: Endian) -> bool {
        match self {
            ClientEvent::Session(e) => e.encodable(order),
            ClientEvent::Raw(e) => e.encodable(order),
        }
    }

    fn encode(&self, order: Endian, dst: &mut BytesMut) -> (r: Result<(), EncodeError>) {
        match self {
            ClientEvent::Session(e) => e.encode(order, dst),
            ClientEvent::Raw(e) => e.encode(order, dst),
        }
    }
}

/// The views of a sequence of events.
pub open spec fn events_view(events: Seq<OutEvent>) -> Seq<OutEventV> {
    events.map_values(|e: OutEvent| e@)
}

/// What a session does in answer to one request.
pub struct Response {
    /// The events to send back to the client, in order.
    pub events: Vec<OutEvent>,
    /// Whether to relay the request to the compositor.
    pub next_action: NextAction,
    /// The bytes to relay (empty unless the action relays).
    pub relay_buf: Vec<u8>,
    /// Whether the session ends.
    pub stop: bool,
}

/// What a response holds, for specifications.
pub struct ResponseV {
    pub events: Seq<OutEventV>,
    pub next_action: NextAction,
    pub relay_buf: Seq<u8>,
    pub stop: bool,
}

impl View for Response {
    type V = ResponseV;

    open spec fn view(&self) -> ResponseV {
        ResponseV {
            events: events_view(self.events@),
            next_action: self.next_action,
            relay_buf: self.relay_buf@,
            stop: self.stop,
        }
    }
}

/// The state of one client connection.
pub struct Session {
    /// The client's objects, by id.
    pub resources: HashMap<u32, Resource>,
    /// The serial of the last `wl_display.sync` callback.
    pub callback_data: u32,
    /// File descriptors received and not yet taken by a request.
    pub fds: Vec<i32>,
}

/// What a session holds, for specifications.
pub struct SessionV {
    pub resources: Map<u32, Resource>,
    pub callback_data: u32,
    pub fds: Seq<i32>,
}

impl View for Session {
    type V = SessionV;

    open spec fn view(&self) -> SessionV {
        SessionV { resources: self.resources@, callback_data: self.callback_data, fds: self.fds@ }
    }
}

/// A `wl_display` error event.
pub open spec fn display_error(object_id: u32, code: u32, message: Seq<char>) -> OutEventV {
    OutEventV::DisplayError { sender_object_id: DISPLAY_OBJECT_ID, object_id, code, message }
}

/// The 32-bit value that an argument carries, or 0 for strings and arrays.
pub open spec fn word(a: ArgV) -> u32 {
    match a {
        ArgV::Uint(v) => v,
        ArgV::Object(v) => v,
        ArgV::NewId(v) => v,
        ArgV::Fixed(v) => v,
        _ => 0,
    }
}

/// The 32-bit value of argument `k`, or 0 when there is none.
pub open spec fn word_at(vals: Seq<ArgV>, k: int) -> u32 {
    if 0 <= k < vals.len() {
        word(vals[k])
    } else {
        0
    }
}

/// The globals that the registry announces, in order.
pub open spec fn globals(registry: u32) -> Seq<OutEventV> {
    seq![
        OutEventV::RegistryGlobal {
            sender_object_id: registry,
            name: wl_compositor::GLOBAL_SINGLETON_NAME,
            interface: "wl_compositor"@,
            version: wl_compositor::VERSION,
        },
        OutEventV::RegistryGlobal {
            sender_object_id: registry,
            name: wl_data_device_manager::GLOBAL_SINGLETON_NAME,
            interface: "wl_data_device_manager"@,
            version: wl_data_device_manager::VERSION,
        },
        OutEventV::RegistryGlobal {
            sender_object_id: registry,
            name: wl_shm::GLOBAL_SINGLETON_NAME,
            interface: "wl_shm"@,
            version: wl_shm::VERSION,
        },
        OutEventV::RegistryGlobal {
            sender_object_id: registry,
            name: xdg_wm_base::GLOBAL_SINGLETON_NAME,
            interface: "xdg_wm_base"@,
            version: xdg_wm_base::VERSION,
        },
    ]
}

/// The singleton that a global name binds to, if any.
pub open spec fn bind_target(name: u32) -> Option<Resource> {
    if name == wl_registry::GLOBAL_SINGLETON_NAME {
        Some(Resource::WlRegistry(WlRegistry {  }))
    } else if name == wl_display::GLOBAL_SINGLETON_NAME {
        Some(Resource::WlDisplay(WlDisplay {  }))
    } else if name == wl_compositor::GLOBAL_SINGLETON_NAME {
        Some(Resource::WlCompositor(WlCompositor {  }))
    } else if name == wl_data_device_manager::GLOBAL_SINGLETON_NAME {
        Some(Resource::WlDataDeviceManager(WlDataDeviceManager {  }))
    } else if name == xdg_wm_base::GLOBAL_SINGLETON_NAME {
        Some(Resource::XdgWmBase(XdgWmBase {  }))
    } else if name == wl_shm::GLOBAL_SINGLETON_NAME {
        Some(Resource::WlShm(WlShm {  }))
    } else {
        None
    }
}

/// The signed value of argument `k`, or 0 when there is none.
pub open spec fn int_at(vals: Seq<ArgV>, k: int) -> i32 {
    if 0 <= k < vals.len() {
        match vals[k] {
            ArgV::Int(v) => v,
            _ => 0,
        }
    } else {
        0
    }
}

/// Whether some object is an `xdg_surface`.
pub open spec fn has_xdg_surface_spec(resources: Map<u32, Resource>) -> bool {
    exists|k: u32| resources.contains_key(k) && (#[trigger] resources[k]) is XdgSurface
}

/// The message of the error that refuses a window geometry whose size is
/// not positive.
pub open spec fn invalid_geometry_text() -> Seq<char> {
    "xdg_surface::set_window_geometry: width and height must be positive"@
}

/// The message of the error that refuses a positioner size that is not
/// positive.
pub open spec fn invalid_size_text() -> Seq<char> {
    "xdg_positioner::set_size: width and height must be positive"@
}

/// The message of the error that refuses to destroy an `xdg_wm_base` while
/// an `xdg_surface` is alive.
pub open spec fn defunct_surfaces_text() -> Seq<char> {
    "xdg_wm_base::destroy: surfaces are still alive"@
}

/// The result of a handler: the new state, the events, the action,
/// whether the session ends and whether the object is destroyed.
pub struct Outcome {
    pub state: SessionV,
    pub events: Seq<OutEventV>,
    pub action: NextAction,
    pub stop: bool,
    /// Whether the object that the request was sent to is destroyed.
    pub destroyed: bool,
}

/// What the handler of request `opcode` of interface `i`, sent to object
/// `id` with the decoded arguments `vals`, does to the session `s`.
pub open spec fn handle_decoded(i: Interface, id: u32, opcode: u16, vals: Seq<ArgV>, s: SessionV) -> Outcome {
    let none = Seq::<OutEventV>::empty();
    match i.handler(opcode) {
        Handler::Relay => Outcome { state: s, events: none, action: NextAction::Relay, stop: false, destroyed: false },
        Handler::Keep => Outcome { state: s, events: none, action: NextAction::Nop, stop: false, destroyed: false },
        Handler::Stop => Outcome { state: s, events: none, action: NextAction::Nop, stop: true, destroyed: false },
        Handler::Unimplemented => Outcome {
            state: s,
            events: seq![display_error(id, INVALID_METHOD, method_unimplemented_text(i.text(), i.method(opcode)))],
            action: NextAction::Nop,
            stop: false,
            destroyed: false,
        },
        Handler::UnimplementedAt => Outcome {
            state: s,
            events: seq![display_error(id, INVALID_METHOD, object_method_unimplemented_text(i.text(), id, i.method(opcode)))],
            action: NextAction::Nop,
            stop: false,
            destroyed: false,
        },
        Handler::Sync => {
            let data = (s.callback_data + 1) as u32;
            Outcome {
                state: SessionV { resources: s.resources, callback_data: data, fds: s.fds },
                events: seq![OutEventV::CallbackDone { sender_object_id: word_at(vals, 0), callback_data: data }],
                action: NextAction::Relay,
                stop: false,
                destroyed: false,
            }
        },
        Handler::GetRegistry => Outcome {
            state: SessionV {
                resources: s.resources.insert(word_at(vals, 0), Resource::WlRegistry(WlRegistry {  })),
                callback_data: s.callback_data,
                fds: s.fds,
            },
            events: globals(word_at(vals, 0)),
            action: NextAction::Relay,
            stop: false,
            destroyed: false,
        },
        Handler::Bind => Outcome {
            state: SessionV {
                resources: match bind_target(word_at(vals, 0)) {
                    Some(r) => s.resources.insert(word_at(vals, 1), r),
                    None => s.resources,
                },
                callback_data: s.callback_data,
                fds: s.fds,
            },
            events: none,
            action: NextAction::Relay,
            stop: false,
            destroyed: false,
        },
        Handler::CreateSurface => Outcome {
            state: SessionV {
                resources: s.resources.insert(word_at(vals, 0), Resource::WlSurface(WlSurface {  })),
                callback_data: s.callback_data,
                fds: s.fds,
            },
            events: none,
            action: NextAction::Nop,
            stop: false,
            destroyed: false,
        },
        Handler::CreateRegion => Outcome {
            state: SessionV {
                resources: s.resources.insert(word_at(vals, 0), Resource::WlRegion(WlRegion {  })),
                callback_data: s.callback_data,
                fds: s.fds,
            },
            events: none,
            action: NextAction::Nop,
            stop: false,
            destroyed: false,
        },
        Handler::Destroy => Outcome { state: s, events: none, action: NextAction::Nop, stop: false, destroyed: true },
        Handler::SetWindowGeometry => if int_at(vals, 2) <= 0 || int_at(vals, 3) <= 0 {
            Outcome {
                state: s,
                events: seq![display_error(id, xdg_surface::enums::Error::InvalidSize.code(), invalid_geometry_text())],
                action: NextAction::Nop,
                stop: false,
                destroyed: false,
            }
        } else {
            Outcome { state: s, events: none, action: NextAction::Relay, stop: false, destroyed: false }
        },
        Handler::SetSize => Outcome {
            state: s,
            events: if int_at(vals, 0) <= 0 || int_at(vals, 1) <= 0 {
                seq![display_error(id, xdg_positioner::enums::Error::InvalidInput.code(), invalid_size_text())]
            } else {
                seq![display_error(id, INVALID_METHOD, method_unimplemented_text(i.text(), i.method(opcode)))]
            },
            action: NextAction::Nop,
            stop: false,
            destroyed: false,
        },
        Handler::DestroyWmBase => if has_xdg_surface_spec(s.resources) {
            Outcome {
                state: s,
                events: seq![display_error(id, xdg_wm_base::enums::Error::DefunctSurfaces.code(), defunct_surfaces_text())],
                action: NextAction::Nop,
                stop: false,
                destroyed: false,
            }
        } else {
            Outcome { state: s, events: none, action: NextAction::Relay, stop: false, destroyed: true }
        },
    }
}

/// Whether a long `wl_registry.bind` request body names an interface longer
/// than the body itself, so that reading the name runs past its end.
pub open spec fn bind_panics(order: Endian, args: Seq<u8>) -> bool {
    args.len() > 8 && 8 + u32_value(order, args.subrange(4, 8)) > args.len()
}

/// Decodes a `wl_registry.bind` request body of more than 8 bytes: the
/// global name, the interface name (skipped), the version (skipped) and the
/// new id, with nothing after them.
pub open spec fn bind_args_spec(order: Endian, args: Seq<u8>) -> Option<Seq<ArgV>> {
    let name = u32_value(order, args.subrange(0, 4));
    let n = u32_value(order, args.subrange(4, 8)) as int;
    let pos = 8 + pad4(n);
    if pos + 8 == args.len() {
        Some(seq![ArgV::Uint(name), ArgV::NewId(u32_value(order, args.subrange(pos + 4, pos + 8)))])
    } else {
        None
    }
}

/// Decodes the arguments of a request: `None` when the interface has no
/// such opcode, else the arguments (or `None` when they do not decode) and
/// the file descriptors left.
pub open spec fn request_args_spec(order: Endian, i: Interface, opcode: u16, args: Seq<u8>, fds: Seq<i32>) -> Option<
    (Option<Seq<ArgV>>, Seq<i32>),
> {
    if i == Interface::WlRegistry && opcode == 0 && args.len() > 8 {
        Some((bind_args_spec(order, args), fds))
    } else {
        match i.kinds(opcode) {
            None => None,
            Some(k) => Some(decode_args_spec(order, k, args, fds)),
        }
    }
}

/// The error text for a request that does not decode.
pub open spec fn invalid_request_text(i: Interface, id: u32, opcode: u16, args: Seq<u8>) -> Seq<char> {
    if i.silent() {
        object_opcode_not_found_text(i.text(), id, opcode, debug_bytes(args))
    } else {
        opcode_not_found_text(opcode, debug_bytes(args))
    }
}

/// A response with no relay.
pub open spec fn plain(events: Seq<OutEventV>, stop: bool) -> ResponseV {
    ResponseV { events, next_action: NextAction::Nop, relay_buf: Seq::empty(), stop }
}

/// What a request of opcode `opcode` with body `args`, sent to object `id`
/// of interface `i`, does to the session `s` from which the object has been
/// taken out; and whether the object is destroyed.
pub open spec fn dispatch_spec(order: Endian, i: Interface, id: u32, opcode: u16, args: Seq<u8>, s: SessionV) -> (
    SessionV,
    ResponseV,
    bool,
) {
    match request_args_spec(order, i, opcode, args, s.fds) {
        None => if i.silent() {
            (s, plain(Seq::empty(), false), false)
        } else {
            (s, plain(seq![display_error(id, INVALID_METHOD, opcode_not_found_text(opcode, debug_bytes(args)))], false), false)
        },
        Some((decoded, fds)) => {
            let s1 = SessionV { resources: s.resources, callback_data: s.callback_data, fds };
            match decoded {
                None => (
                    s1,
                    plain(seq![display_error(id, INVALID_METHOD, invalid_request_text(i, id, opcode, args))], false),
                    false,
                ),
                Some(vals) => {
                    let relay = message_wire(order, id, opcode, vals);
                    if !i.silent() && relay.len() > 0xffff {
                        (s1, plain(Seq::empty(), true), false)
                    } else {
                        let o = handle_decoded(i, id, opcode, vals, s1);
                        (o.state, ResponseV {
                            events: o.events,
                            next_action: o.action,
                            relay_buf: if o.action == NextAction::Nop { Seq::empty() } else { relay },
                            stop: o.stop,
                        }, o.destroyed)
                    }
                },
            }
        },
    }
}

/// What one request does to a session: the file descriptors that came with
/// it join the session's; a request to an object that does not exist is
/// answered with an `invalid_object` error; otherwise the object handles it
/// and stays in place, unless the request destroyed it.
pub open spec fn handle_spec(order: Endian, s: SessionV, req: RequestV) -> (SessionV, ResponseV) {
    let fds = s.fds + req.fds;
    let id = req.sender_object_id;
    if !s.resources.contains_key(id) {
        (
            SessionV { resources: s.resources, callback_data: s.callback_data, fds },
            plain(seq![display_error(DISPLAY_OBJECT_ID, INVALID_OBJECT, object_not_found_text(id, req.opcode, debug_bytes(req.args)))], false),
        )
    } else {
        let res = s.resources[id];
        let ctx = take_out(SessionV { resources: s.resources, callback_data: s.callback_data, fds }, id);
        let (s2, r, destroyed) = dispatch_spec(order, res.iface(), id, req.opcode, req.args, ctx);
        (if destroyed { s2 } else { put_back(s2, id, res) }, r)
    }
}

/// The session while a handler runs: the object the request is sent to is
/// taken out of it.
pub open spec fn take_out(s: SessionV, id: u32) -> SessionV {
    SessionV { resources: s.resources.remove(id), callback_data: s.callback_data, fds: s.fds }
}

/// The session after a handler ran: the object is put back at its id.
pub open spec fn put_back(s: SessionV, id: u32, res: Resource) -> SessionV {
    SessionV { resources: s.resources.insert(id, res), callback_data: s.callback_data, fds: s.fds }
}

/// The requests that a session cannot handle: a long `wl_registry.bind`
/// whose interface name runs past the body (reading it panics), and a
/// `wl_display.sync` when the callback serial is at its maximum (the next
/// serial overflows).
pub open spec fn panics_on(order: Endian, s: SessionV, req: RequestV) -> bool {
    let id = req.sender_object_id;
    &&& s.resources.contains_key(id)
    &&& {
        let i = s.resources[id].iface();
        ||| (i == Interface::WlRegistry && req.opcode == 0 && bind_panics(order, req.args))
        ||| (i == Interface::WlDisplay && req.opcode == 0 && s.callback_data == u32::MAX
            && decode_args_spec(order, seq![ArgKind::NewId], req.args, s.fds + req.fds).0 is Some)
    }
}

/// Decodes a `wl_registry.bind` request body of more than 8 bytes.
fn decode_bind(order: Endian, args: &Vec<u8>) -> (r: Option<Vec<Arg>>)
    requires
        args@.len() > 8,
        args@.len() <= 0xffff,
        !bind_panics(order, args@),
    ensures
        match r {
            Some(v) => bind_args_spec(order, args@) == Some(args_view(v@)),
            None => bind_args_spec(order, args@) is None,
        },
{
    let len = args.len();
    let name = read_u32_at(order, args, 0);
    let n = read_u32_at(order, args, 4) as usize;
    let pos = 8 + (n + 3) / 4 * 4;
    if pos > len || len - pos != 8 {
        return None;
    }
    let _version = read_u32_at(order, args, pos);
    let id = read_u32_at(order, args, pos + 4);
    let mut v: Vec<Arg> = Vec::new();
    v.push(Arg::Uint(name));
    v.push(Arg::NewId(id));
    assert(args_view(v@) =~= seq![ArgV::Uint(name), ArgV::NewId(id)]);
    Some(v)
}

/// Decodes the arguments of a request to an object of interface `i`.
fn request_args(order: Endian, i: Interface, opcode: u16, args: &Vec<u8>, fds: &mut Vec<i32>) -> (r:
    Option<Option<Vec<Arg>>>)
    requires
        args@.len() <= 0xffff,
        !(i == Interface::WlRegistry && opcode == 0 && bind_panics(order, args@)),
    ensures
        match request_args_spec(order, i, opcode, args@, old(fds)@) {
            None => r is None && final(fds)@ == old(fds)@,
            Some((vals, f)) => {
                &&& r matches Some(o)
                &&& final(fds)@ == f
                &&& match o {
                    Some(v) => vals == Some(args_view(v@)),
                    None => vals is None,
                }
            },
        },
{
    let is_registry = match i {
        Interface::WlRegistry => true,
        _ => false,
    };
    if is_registry && opcode == 0 && args.len() > 8 {
        return Some(decode_bind(order, args));
    }
    match i.request_kinds(opcode) {
        None => None,
        Some(kinds) => Some(decode_args(order, &kinds, args, fds)),
    }
}

/// The 32-bit value of argument `k`, or 0 when there is none.
fn word_of(vals: &Vec<Arg>, k: usize) -> (r: u32)
    ensures
        r == word_at(args_view(vals@), k as int),
{
    if k >= vals.len() {
        return 0;
    }
    match &vals[k] {
        Arg::Uint(v) => *v,
        Arg::Object(v) => *v,
        Arg::NewId(v) => *v,
        Arg::Fixed(v) => *v,
        _ => 0,
    }
}

/// The signed value of argument `k`, or 0 when there is none.
fn int_of(vals: &Vec<Arg>, k: usize) -> (r: i32)
    ensures
        r == int_at(args_view(vals@), k as int),
{
    if k >= vals.len() {
        return 0;
    }
    match &vals[k] {
        Arg::Int(v) => *v,
        _ => 0,
    }
}

/// A `wl_display` error event.
fn display_error_event(object_id: u32, code: u32, message: String) -> (r: OutEvent)
    ensures
        r@ == display_error(object_id, code, message@),
{
    OutEvent::DisplayError(Error { sender_object_id: DISPLAY_OBJECT_ID, object_id, code, message })
}

/// A `wl_registry.global` event.
fn global_event(registry: u32, name: u32, interface: &str, version: u32) -> (r: OutEvent)
    ensures
        r@ == (OutEventV::RegistryGlobal {
            sender_object_id: registry,
            name,
            interface: interface@,
            version,
        }),
{
    OutEvent::RegistryGlobal(Global { sender_object_id: registry, name, interface: interface.to_owned(), version })
}

/// The singleton that a global name binds to, if any.
fn bind_target_of(name: u32) -> (r: Option<Resource>)
    ensures
        r == bind_target(name),
{
    if name == wl_registry::GLOBAL_SINGLETON_NAME {
        Some(Resource::WlRegistry(WlRegistry {  }))
    } else if name == wl_display::GLOBAL_SINGLETON_NAME {
        Some(Resource::WlDisplay(WlDisplay {  }))
    } else if name == wl_compositor::GLOBAL_SINGLETON_NAME {
        Some(Resource::WlCompositor(WlCompositor {  }))
    } else if name == wl_data_device_manager::GLOBAL_SINGLETON_NAME {
        Some(Resource::WlDataDeviceManager(WlDataDeviceManager {  }))
    } else if name == xdg_wm_base::GLOBAL_SINGLETON_NAME {
        Some(Resource::XdgWmBase(XdgWmBase {  }))
    } else if name == wl_shm::GLOBAL_SINGLETON_NAME {
        Some(Resource::WlShm(WlShm {  }))
    } else {
        None
    }
}

impl Session {
    /// A new session: the display object is at id 1, no callback has fired
    /// and no file descriptor is pending.
    pub fn new() -> (r: Session)
        ensures
            r@.resources == Map::<u32, Resource>::empty().insert(DISPLAY_OBJECT_ID, Resource::WlDisplay(WlDisplay {  })),
            r@.callback_data == 0,
            r@.fds == Seq::<i32>::empty(),
    {
        let mut resources: HashMap<u32, Resource> = HashMap::new();
        resources.insert(DISPLAY_OBJECT_ID, Resource::WlDisplay(WlDisplay {  }));
        Session { resources, callback_data: 0, fds: Vec::new() }
    }

    /// Runs the handler of a request whose arguments decoded.
    fn run_handler(&mut self, i: Interface, id: u32, opcode: u16, vals: &Vec<Arg>) -> (r: (
        Vec<OutEvent>,
        NextAction,
        bool,
        bool,
    ))
        requires
            i.handler(opcode) == Handler::Sync ==> old(self).callback_data < u32::MAX,
        ensures
            ({
                let o = handle_decoded(i, id, opcode, args_view(vals@), old(self)@);
                &&& final(self)@ == o.state
                &&& events_view(r.0@) == o.events
                &&& r.1 == o.action
                &&& r.2 == o.stop
                &&& r.3 == o.destroyed
            }),
    {
        let ghost vv = args_view(vals@);
        let mut events: Vec<OutEvent> = Vec::new();
        match i.handler_of(opcode) {
            Handler::Relay => {
                assert(events_view(events@) =~= Seq::<OutEventV>::empty());
                (events, NextAction::Relay, false, false)
            },
            Handler::Keep => {
                assert(events_view(events@) =~= Seq::<OutEventV>::empty());
                (events, NextAction::Nop, false, false)
            },
            Handler::Stop => {
                assert(events_view(events@) =~= Seq::<OutEventV>::empty());
                (events, NextAction::Nop, true, false)
            },
            Handler::Unimplemented => {
                let message = method_unimplemented_message(i.name(), i.method_name(opcode));
                let e = display_error_event(id, INVALID_METHOD, message);
                let ghost ev = e@;
                events.push(e);
                assert(events_view(events@) =~= seq![ev]);
                (events, NextAction::Nop, false, false)
            },
            Handler::UnimplementedAt => {
                let message = object_method_unimplemented_message(i.name(), id, i.method_name(opcode));
                let e = display_error_event(id, INVALID_METHOD, message);
                let ghost ev = e@;
                events.push(e);
                assert(events_view(events@) =~= seq![ev]);
                (events, NextAction::Nop, false, false)
            },
            Handler::Sync => {
                let callback = word_of(vals, 0);
                self.callback_data = self.callback_data + 1;
                let e = OutEvent::CallbackDone(Done { sender_object_id: callback, callback_data: self.callback_data });
                let ghost ev = e@;
                events.push(e);
                assert(events_view(events@) =~= seq![ev]);
                (events, NextAction::Relay, false, false)
            },
            Handler::GetRegistry => {
                let registry = word_of(vals, 0);
                self.resources.insert(registry, Resource::WlRegistry(WlRegistry {  }));
                let e1 = global_event(registry, wl_compositor::GLOBAL_SINGLETON_NAME, "wl_compositor", wl_compositor::VERSION);
                let e2 = global_event(registry, wl_shm::GLOBAL_SINGLETON_NAME, "wl_shm", wl_shm::VERSION);
                let e3 = global_event(registry, xdg_wm_base::GLOBAL_SINGLETON_NAME, "xdg_wm_base", xdg_wm_base::VERSION);
                let e4 = global_event(
                    registry,
                    wl_data_device_manager::GLOBAL_SINGLETON_NAME,
                    "wl_data_device_manager",
                    wl_data_device_manager::VERSION,
                );
                let ghost (v1, v2, v3, v4) = (e1@, e2@, e3@, e4@);
                events.push(e1);
                events.push(e4);
                events.push(e2);
                events.push(e3);
                assert(events_view(events@) =~= seq![v1, v4, v2, v3]);
                (events, NextAction::Relay, false, false)
            },
            Handler::Bind => {
                let name = word_of(vals, 0);
                let new_id = word_of(vals, 1);
                match bind_target_of(name) {
                    Some(r) => {
                        self.resources.insert(new_id, r);
                    },
                    None => {},
                }
                assert(events_view(events@) =~= Seq::<OutEventV>::empty());
                (events, NextAction::Relay, false, false)
            },
            Handler::CreateSurface => {
                let new_id = word_of(vals, 0);
                self.resources.insert(new_id, Resource::WlSurface(WlSurface {  }));
                assert(events_view(events@) =~= Seq::<OutEventV>::empty());
                (events, NextAction::Nop, false, false)
            },
            Handler::CreateRegion => {
                let new_id = word_of(vals, 0);
                self.resources.insert(new_id, Resource::WlRegion(WlRegion {  }));
                assert(events_view(events@) =~= Seq::<OutEventV>::empty());
                (events, NextAction::Nop, false, false)
            },
            Handler::Destroy => {
                assert(events_view(events@) =~= Seq::<OutEventV>::empty());
                (events, NextAction::Nop, false, true)
            },
            Handler::SetWindowGeometry => {
                if int_of(vals, 2) <= 0 || int_of(vals, 3) <= 0 {
                    let e = display_error_event(
                        id,
                        xdg_surface::enums::Error::InvalidSize.value(),
                        "xdg_surface::set_window_geometry: width and height must be positive".to_owned(),
                    );
                    let ghost ev = e@;
                    events.push(e);
                    assert(events_view(events@) =~= seq![ev]);
                    (events, NextAction::Nop, false, false)
                } else {
                    assert(events_view(events@) =~= Seq::<OutEventV>::empty());
                    (events, NextAction::Relay, false, false)
                }
            },
            Handler::SetSize => {
                let e = if int_of(vals, 0) <= 0 || int_of(vals, 1) <= 0 {
                    display_error_event(
                        id,
                        xdg_positioner::enums::Error::InvalidInput.value(),
                        "xdg_positioner::set_size: width and height must be positive".to_owned(),
                    )
                } else {
                    display_error_event(id, INVALID_METHOD, method_unimplemented_message(i.name(), i.method_name(opcode)))
                };
                let ghost ev = e@;
                events.push(e);
                assert(events_view(events@) =~= seq![ev]);
                (events, NextAction::Nop, false, false)
            },
            Handler::DestroyWmBase => {
                if has_xdg_surface(&self.resources) {
                    let e = display_error_event(
                        id,
                        xdg_wm_base::enums::Error::DefunctSurfaces.value(),
                        "xdg_wm_base::destroy: surfaces are still alive".to_owned(),
                    );
                    let ghost ev = e@;
                    events.push(e);
                    assert(events_view(events@) =~= seq![ev]);
                    (events, NextAction::Nop, false, false)
                } else {
                    assert(events_view(events@) =~= Seq::<OutEventV>::empty());
                    (events, NextAction::Relay, false, true)
                }
            },
        }
    }

    /// Decodes and handles a request to object `id` of interface `i`; the
    /// object itself has been taken out of the session.
    fn dispatch(&mut self, order: Endian, i: Interface, id: u32, opcode: u16, args: &Vec<u8>) -> (r: (
        Response,
        bool,
    ))
        requires
            args@.len() <= 0xffff,
            !(i == Interface::WlRegistry && opcode == 0 && bind_panics(order, args@)),
            (i == Interface::WlDisplay && opcode == 0 && decode_args_spec(
                order,
                seq![ArgKind::NewId],
                args@,
                old(self)@.fds,
            ).0 is Some) ==> old(self).callback_data < u32::MAX,
        ensures
            (final(self)@, r.0@, r.1) == dispatch_spec(order, i, id, opcode, args@, old(self)@),
    {
        let mut events: Vec<OutEvent> = Vec::new();
        match request_args(order, i, opcode, args, &mut self.fds) {
            None => {
                if i.is_silent() {
                    assert(events_view(events@) =~= Seq::<OutEventV>::empty());
                } else {
                    let e = display_error_event(id, INVALID_METHOD, opcode_not_found_message(opcode, args));
                    let ghost ev = e@;
                    events.push(e);
                    assert(events_view(events@) =~= seq![ev]);
                }
                let r = Response { events, next_action: NextAction::Nop, relay_buf: Vec::new(), stop: false };
                assert(r@.relay_buf =~= Seq::<u8>::empty());
                (r, false)
            },
            Some(None) => {
                let message = if i.is_silent() {
                    object_opcode_not_found_message(i.name(), id, opcode, args)
                } else {
                    opcode_not_found_message(opcode, args)
                };
                let e = display_error_event(id, INVALID_METHOD, message);
                let ghost ev = e@;
                events.push(e);
                assert(events_view(events@) =~= seq![ev]);
                let r = Response { events, next_action: NextAction::Nop, relay_buf: Vec::new(), stop: false };
                assert(r@.relay_buf =~= Seq::<u8>::empty());
                (r, false)
            },
            Some(Some(vals)) => {
                if i.is_silent() {
                    let (events, action, stop, destroyed) = self.run_handler(i, id, opcode, &vals);
                    let r = Response { events, next_action: action, relay_buf: Vec::new(), stop };
                    assert(r@.relay_buf =~= Seq::<u8>::empty());
                    (r, destroyed)
                } else {
                    match encode_message(order, id, opcode, &vals) {
                        Err(_) => {
                            assert(events_view(events@) =~= Seq::<OutEventV>::empty());
                            let r = Response { events, next_action: NextAction::Nop, relay_buf: Vec::new(), stop: true };
                            assert(r@.relay_buf =~= Seq::<u8>::empty());
                            (r, false)
                        },
                        Ok(relay) => {
                            let (events, action, stop, destroyed) = self.run_handler(i, id, opcode, &vals);
                            let relay_buf = match action {
                                NextAction::Nop => Vec::new(),
                                _ => relay,
                            };
                            let r = Response { events, next_action: action, relay_buf, stop };
                            assert(r@.relay_buf =~= (if action == NextAction::Nop { Seq::<u8>::empty() } else { message_wire(order, id, opcode, args_view(vals@)) }));
                            (r, destroyed)
                        },
                    }
                }
            },
        }
    }

    /// Whether this is a request that the session cannot handle (see
    /// `panics_on`).
    pub fn would_panic(&self, order: Endian, req: &Request) -> (r: bool)
        requires
            self@.fds.len() + req@.fds.len() <= usize::MAX,
            req@.args.len() <= 0xffff,
        ensures
            r == panics_on(order, self@, req@),
    {
        let id = req.sender_object_id;
        match self.resources.get(&id) {
            None => false,
            Some(res) => {
                let i = res.interface();
                match i {
                    Interface::WlRegistry => {
                        if req.opcode == 0 && req.args.len() > 8 {
                            let n = read_u32_at(order, &req.args, 4) as usize;
                            n > req.args.len() - 8
                        } else {
                            false
                        }
                    },
                    Interface::WlDisplay => {
                        if req.opcode == 0 && self.callback_data == u32::MAX {
                            let mut fds = self.fds.clone();
                            let mut more = req.fds.clone();
                            fds.append(&mut more);
                            let mut kinds: Vec<ArgKind> = Vec::new();
                            kinds.push(ArgKind::NewId);
                            assert(kinds@ =~= seq![ArgKind::NewId]);
                            assert(fds@ =~= self@.fds + req@.fds);
                            decode_args(order, &kinds, &req.args, &mut fds).is_some()
                        } else {
                            false
                        }
                    },
                    _ => false,
                }
            },
        }
    }

    /// Handles a request unless it is one that the session cannot handle;
    /// returns `None`, and changes nothing, for such a request.
    pub fn try_handle_request(&mut self, order: Endian, req: Request) -> (r: Option<Response>)
        requires
            old(self)@.fds.len() + req@.fds.len() <= usize::MAX,
            req@.args.len() <= 0xffff,
        ensures
            panics_on(order, old(self)@, req@) ==> r is None && final(self)@ == old(self)@,
            !panics_on(order, old(self)@, req@) ==> (r matches Some(resp) && (final(self)@, resp@) == handle_spec(
                order,
                old(self)@,
                req@,
            )),
    {
        if self.would_panic(order, &req) {
            None
        } else {
            Some(self.handle_request(order, req))
        }
    }

    /// Handles one request from the client: takes its file descriptors,
    /// finds its object, decodes its arguments, runs its handler, and says
    /// which events to send back and what to relay.
    pub fn handle_request(&mut self, order: Endian, req: Request) -> (r: Response)
        requires
            !panics_on(order, old(self)@, req@),
            old(self)@.fds.len() + req@.fds.len() <= usize::MAX,
            req@.args.len() <= 0xffff,
        ensures
            (final(self)@, r@) == handle_spec(order, old(self)@, req@),
    {
        let ghost s0 = old(self)@;
        let ghost rv = req@;
        let Request { sender_object_id: id, opcode, args, fds } = req;
        let mut fds = fds;
        self.fds.append(&mut fds);
        match self.resources.remove(&id) {
            None => {
                assert(self.resources@ =~= s0.resources);
                let e = display_error_event(DISPLAY_OBJECT_ID, INVALID_OBJECT, object_not_found_message(id, opcode, &args));
                let ghost ev = e@;
                let mut events: Vec<OutEvent> = Vec::new();
                events.push(e);
                assert(events_view(events@) =~= seq![ev]);
                let r = Response { events, next_action: NextAction::Nop, relay_buf: Vec::new(), stop: false };
                assert(r@.relay_buf =~= Seq::<u8>::empty());
                r
            },
            Some(res) => {
                let i = res.interface();
                assert(self@.resources =~= s0.resources.remove(id));
                assert(res == s0.resources[id]);
                let (r, destroyed) = self.dispatch(order, i, id, opcode, &args);
                if !destroyed {
                    let ghost s2 = self@;
                    self.resources.insert(id, res);
                    assert(self@ == (SessionV { resources: s2.resources.insert(id, res), callback_data: s2.callback_data, fds: s2.fds }));
                }
                r
            },
        }
    }
}

/// The handler of a decoded request keeps every object it finds, keeps the
/// pending file descriptors, and moves the callback serial only on a sync.
proof fn lemma_handle_decoded_frame(i: Interface, id: u32, opcode: u16, vals: Seq<ArgV>, s: SessionV)
    ensures
        ({
            let o = handle_decoded(i, id, opcode, vals, s);
            &&& forall|k: u32| s.resources.contains_key(k) ==> #[trigger] o.state.resources.contains_key(k)
            &&& o.state.fds == s.fds
            &&& o.state.callback_data != s.callback_data ==> {
                &&& i.handler(opcode) == Handler::Sync
                &&& o.state.callback_data == (s.callback_data + 1) as u32
                &&& o.events == seq![OutEventV::CallbackDone { sender_object_id: word_at(vals, 0), callback_data: o.state.callback_data }]
            }
        }),
{
}

/// Dispatching keeps every object, takes file descriptors only from the
/// front, and moves the callback serial only on a sync.
proof fn lemma_dispatch_frame(order: Endian, i: Interface, id: u32, opcode: u16, args: Seq<u8>, s: SessionV)
    ensures
        ({
            let (s2, r, destroyed) = dispatch_spec(order, i, id, opcode, args, s);
            &&& forall|k: u32| s.resources.contains_key(k) ==> #[trigger] s2.resources.contains_key(k)
            &&& is_suffix_of(s2.fds, s.fds)
            &&& s2.callback_data != s.callback_data ==> {
                &&& s2.callback_data == (s.callback_data + 1) as u32
                &&& r.events.len() == 1
                &&& r.events[0] matches OutEventV::CallbackDone { callback_data, .. } && callback_data == s2.callback_data
            }
        }),
{
    assert(s.fds.subrange(0, s.fds.len() as int) =~= s.fds);
    if !(i == Interface::WlRegistry && opcode == 0 && args.len() > 8) {
        match i.kinds(opcode) {
            Some(k) => lemma_decode_fds_suffix(order, k, 0, args, 0, s.fds, Seq::empty()),
            None => {},
        }
    }
    match request_args_spec(order, i, opcode, args, s.fds) {
        Some((Some(vals), fds)) => {
            let s1 = SessionV { resources: s.resources, callback_data: s.callback_data, fds };
            lemma_handle_decoded_frame(i, id, opcode, vals, s1);
        },
        _ => {},
    }
}

/// A request to an object that does not exist changes no object and no
/// serial, relays nothing, keeps the session going, and is answered with one
/// `invalid_object` error from the display that names the request.
pub proof fn lemma_unknown_object(order: Endian, s: SessionV, req: RequestV)
    requires
        !s.resources.contains_key(req.sender_object_id),
    ensures
        ({
            let (s2, r) = handle_spec(order, s, req);
            &&& s2.resources == s.resources
            &&& s2.callback_data == s.callback_data
            &&& s2.fds == s.fds + req.fds
            &&& r.events == seq![display_error(DISPLAY_OBJECT_ID, INVALID_OBJECT, object_not_found_text(req.sender_object_id, req.opcode, debug_bytes(req.args)))]
            &&& r.next_action == NextAction::Nop
            &&& r.relay_buf.len() == 0
            &&& !r.stop
        }),
{
}

/// No request makes the session forget an object other than the one it is
/// sent to; that object stays at its id, unchanged, unless the request is
/// its destructor (`wl_data_device.release`, or `xdg_wm_base.destroy` while
/// no `xdg_surface` is alive), which removes it.
pub proof fn lemma_objects_kept(order: Endian, s: SessionV, req: RequestV)
    ensures
        ({
            let (s2, r) = handle_spec(order, s, req);
            let id = req.sender_object_id;
            &&& forall|k: u32| s.resources.contains_key(k) && k != id ==> #[trigger] s2.resources.contains_key(k)
            &&& s.resources.contains_key(id) && s2.resources.contains_key(id) ==> s2.resources[id] == s.resources[id]
            &&& s.resources.contains_key(id) && !s2.resources.contains_key(id) ==> {
                let h = s.resources[id].iface().handler(req.opcode);
                h == Handler::Destroy || h == Handler::DestroyWmBase
            }
        }),
{
    let id = req.sender_object_id;
    if s.resources.contains_key(id) {
        let ctx = SessionV { resources: s.resources.remove(id), callback_data: s.callback_data, fds: s.fds + req.fds };
        lemma_dispatch_frame(order, s.resources[id].iface(), id, req.opcode, req.args, ctx);
        let (s2, r) = handle_spec(order, s, req);
        assert forall|k: u32| s.resources.contains_key(k) && k != id implies #[trigger] s2.resources.contains_key(k) by {
            assert(ctx.resources.contains_key(k));
        }
    }
}

/// File descriptors are taken in the order they came: after a request, the
/// session's pending descriptors are what is left of the old ones followed
/// by the request's, once some were taken from the front.
pub proof fn lemma_fds_taken_in_order(order: Endian, s: SessionV, req: RequestV)
    ensures
        is_suffix_of(handle_spec(order, s, req).0.fds, s.fds + req.fds),
{
    let id = req.sender_object_id;
    let all = s.fds + req.fds;
    if s.resources.contains_key(id) {
        let ctx = SessionV { resources: s.resources.remove(id), callback_data: s.callback_data, fds: all };
        lemma_dispatch_frame(order, s.resources[id].iface(), id, req.opcode, req.args, ctx);
    } else {
        assert(all.subrange(0, all.len() as int) =~= all);
    }
}

/// The callback serial moves only on a `wl_display.sync`, by exactly one,
/// and the `done` event that answers the sync carries the new serial.
pub proof fn lemma_callback_serial(order: Endian, s: SessionV, req: RequestV)
    ensures
        ({
            let (s2, r) = handle_spec(order, s, req);
            s2.callback_data != s.callback_data ==> {
                &&& s2.callback_data == (s.callback_data + 1) as u32
                &&& r.events.len() == 1
                &&& r.events[0] matches OutEventV::CallbackDone { callback_data, .. } && callback_data == s2.callback_data
            }
        }),
{
    let id = req.sender_object_id;
    if s.resources.contains_key(id) {
        let ctx = SessionV { resources: s.resources.remove(id), callback_data: s.callback_data, fds: s.fds + req.fds };
        lemma_dispatch_frame(order, s.resources[id].iface(), id, req.opcode, req.args, ctx);
    }
}

/// Requests are passed through unchanged: a request whose arguments are all
/// numbers and object ids is relayed, when it is relayed at all, as exactly
/// the bytes that the client sent, so that the compositor reads back the
/// same object, opcode and arguments.
pub proof fn lemma_relay_unchanged(order: Endian, s: SessionV, req: RequestV)
    requires
        s.resources.contains_key(req.sender_object_id),
        s.resources[req.sender_object_id].iface().kinds(req.opcode) matches Some(k) && forall|j: int|
            0 <= j < k.len() ==> is_word_kind(#[trigger] k[j]),
        !(s.resources[req.sender_object_id].iface() == Interface::WlRegistry && req.opcode == 0 && req.args.len() > 8),
    ensures
        ({
            let (s2, r) = handle_spec(order, s, req);
            let id = req.sender_object_id;
            r.next_action != NextAction::Nop ==> {
                &&& r.relay_buf == u32_bytes(order, id) + u32_bytes(order, size_and_opcode(8 + req.args.len() as int, req.opcode))
                    + req.args
                &&& frame_spec(order, r.relay_buf) == (FrameV::Complete {
                    sender: id,
                    opcode: req.opcode,
                    args: req.args,
                    size: (8 + req.args.len()) as nat,
                })
            }
        }),
{
    let id = req.sender_object_id;
    let i = s.resources[id].iface();
    let k = i.kinds(req.opcode)->0;
    let fds = s.fds + req.fds;
    lemma_encode_decoded_words(order, k, req.args, fds);
    let (s2, r) = handle_spec(order, s, req);
    if r.next_action != NextAction::Nop {
        let vals = decode_args_spec(order, k, req.args, fds).0->0;
        assert(args_wire(order, vals) == req.args);
        assert(r.relay_buf == message_wire(order, id, req.opcode, vals));
        assert(8 + req.args.len() <= 0xffff);
        lemma_frame_of_message(order, id, req.opcode, req.args, Seq::empty());
        assert(r.relay_buf + Seq::<u8>::empty() =~= r.relay_buf);
    }
}

/// Every global that the registry announces can be bound, and binding it
/// creates an object of the interface that was announced.
pub proof fn lemma_announced_globals_bind(registry: u32, k: int)
    requires
        0 <= k < globals(registry).len(),
    ensures
        globals(registry)[k] matches OutEventV::RegistryGlobal { name, interface, .. } && bind_target(name) matches Some(
            r,
        ) && r.iface().text() == interface,
{
}

/// A body that decodes as one `new_id` is that id.
proof fn lemma_single_new_id(order: Endian, args: Seq<u8>, fds: Seq<i32>)
    ensures
        decode_args_spec(order, seq![ArgKind::NewId], args, fds).0 matches Some(vals) ==> {
            &&& args.len() == 4
            &&& vals == seq![ArgV::NewId(body_word(order, args, 0))]
        },
{
    reveal_with_fuel(decode_from, 3);
    assert(Seq::<ArgV>::empty().push(ArgV::NewId(body_word(order, args, 0))) =~= seq![ArgV::NewId(body_word(order, args, 0))]);
}

/// A body that decodes as a `uint` and a `new_id` holds them in its first
/// two words.
proof fn lemma_uint_new_id(order: Endian, args: Seq<u8>, fds: Seq<i32>)
    ensures
        decode_args_spec(order, seq![ArgKind::Uint, ArgKind::NewId], args, fds).0 matches Some(vals) ==> {
            &&& args.len() == 8
            &&& vals == seq![ArgV::Uint(body_word(order, args, 0)), ArgV::NewId(body_word(order, args, 1))]
        },
{
    reveal_with_fuel(decode_from, 4);
    assert(Seq::<ArgV>::empty().push(ArgV::Uint(body_word(order, args, 0))).push(ArgV::NewId(body_word(order, args, 1)))
        =~= seq![ArgV::Uint(body_word(order, args, 0)), ArgV::NewId(body_word(order, args, 1))]);
}

/// A request changes no object but the one it is sent to and those whose
/// ids its body carries.
pub proof fn lemma_other_objects_untouched(order: Endian, s: SessionV, req: RequestV, k: u32)
    requires
        k != req.sender_object_id,
        !carries_word(order, req.args, k),
    ensures
        ({
            let s2 = handle_spec(order, s, req).0;
            &&& s2.resources.contains_key(k) == s.resources.contains_key(k)
            &&& s.resources.contains_key(k) ==> s2.resources[k] == s.resources[k]
        }),
{
    let id = req.sender_object_id;
    let args = req.args;
    if s.resources.contains_key(id) {
        let i = s.resources[id].iface();
        let opcode = req.opcode;
        let fds = s.fds + req.fds;
        let ctx = SessionV { resources: s.resources.remove(id), callback_data: s.callback_data, fds };
        lemma_single_new_id(order, args, fds);
        lemma_uint_new_id(order, args, fds);
        match request_args_spec(order, i, opcode, args, fds) {
            Some((Some(vals), f)) => {
                let s1 = SessionV { resources: ctx.resources, callback_data: ctx.callback_data, fds: f };
                match i.handler(opcode) {
                    Handler::GetRegistry => {
                        assert(word_at(vals, 0) == body_word(order, args, 0));
                    },
                    Handler::CreateSurface => {
                        assert(word_at(vals, 0) == body_word(order, args, 0));
                    },
                    Handler::Bind => {
                        if args.len() > 8 {
                            let n = u32_value(order, args.subrange(4, 8)) as int;
                            let j = 3 + (n + 3) / 4;
                            assert(4 * j == 8 + pad4(n) + 4);
                            assert(word_at(vals, 1) == body_word(order, args, j));
                        } else {
                            assert(word_at(vals, 1) == body_word(order, args, 1));
                        }
                    },
                    _ => {},
                }
            },
            _ => {},
        }
    }
}

/// A request that its object does not take (an unknown opcode, or a body
/// that does not decode) changes no object and no serial, relays nothing,
/// keeps the session going, and is answered with at most one error: an
/// `invalid_method` error about that object.
pub proof fn lemma_refused_request(order: Endian, s: SessionV, req: RequestV)
    requires
        s.resources.contains_key(req.sender_object_id),
        !(request_args_spec(
            order,
            s.resources[req.sender_object_id].iface(),
            req.opcode,
            req.args,
            s.fds + req.fds,
        ) matches Some((Some(_), _))),
    ensures
        ({
            let (s2, r) = handle_spec(order, s, req);
            &&& s2.resources == s.resources
            &&& s2.callback_data == s.callback_data
            &&& r.next_action == NextAction::Nop
            &&& r.relay_buf.len() == 0
            &&& !r.stop
            &&& r.events.len() <= 1
            &&& forall|j: int| 0 <= j < r.events.len() ==> (#[trigger] r.events[j] matches OutEventV::DisplayError {
                object_id,
                code,
                ..
            } && object_id == req.sender_object_id && code == INVALID_METHOD)
        }),
{
    let id = req.sender_object_id;
    let (s2, r) = handle_spec(order, s, req);
    assert(s2.resources =~= s.resources.remove(id).insert(id, s.resources[id]));
}

/// Whether some object is an `xdg_surface`.
fn has_xdg_surface(m: &HashMap<u32, Resource>) -> (r: bool)
    ensures
        r == has_xdg_surface_spec(m@),
{
    let ghost all = spec_hash_map_iter(m).remaining();
    let mut found = false;
    for kv in it: m.iter()
        invariant
            all == spec_hash_map_iter(m).remaining(),
            it.seq() == all,
            found == exists|j: int| 0 <= j < it.index() && (*(#[trigger] all[j]).1) is XdgSurface,
    {
        match kv.1 {
            Resource::XdgSurface(_) => {
                found = true;
            },
            _ => {},
        }
    }
    assert(found == exists|j: int| 0 <= j < all.len() && (*(#[trigger] all[j]).1) is XdgSurface);
    proof {
        if found {
            let j = choose|j: int| 0 <= j < all.len() && (*(#[trigger] all[j]).1) is XdgSurface;
            assert(m@.contains_key(*all[j].0) && m@[*all[j].0] == *all[j].1);
        } else {
            assert forall|k: u32| m@.contains_key(k) implies !((#[trigger] m@[k]) is XdgSurface) by {
                assert(all.contains((&k, &m@[k])));
            }
        }
    }
    found
}

/// A decoded request of numbers and ids, encoded again, is as long as the
/// request that it came from.
proof fn lemma_relay_fits(order: Endian, id: u32, opcode: u16, k: Seq<ArgKind>, args: Seq<u8>, fds: Seq<i32>)
    requires
        forall|j: int| 0 <= j < k.len() ==> is_word_kind(#[trigger] k[j]),
    ensures
        decode_args_spec(order, k, args, fds).0 matches Some(vals) ==> message_wire(order, id, opcode, vals).len()
            == 8 + args.len(),
{
    lemma_encode_decoded_words(order, k, args, fds);
    if decode_args_spec(order, k, args, fds).0 is Some {
        let vals = decode_args_spec(order, k, args, fds).0->0;
        lemma_u32_roundtrip(order, id);
        lemma_u32_roundtrip(order, size_and_opcode(8 + args.len() as int, opcode));
    }
}

/// A body that decodes as two `int`s holds them in its two words.
proof fn lemma_two_ints(order: Endian, args: Seq<u8>, fds: Seq<i32>)
    requires
        args.len() == 8,
    ensures
        decode_args_spec(order, seq![ArgKind::Int, ArgKind::Int], args, fds).0 == Some(
            seq![ArgV::Int(body_int(order, args, 0)), ArgV::Int(body_int(order, args, 1))],
        ),
{
    reveal_with_fuel(decode_from, 4);
    assert(Seq::<ArgV>::empty().push(ArgV::Int(body_int(order, args, 0))).push(ArgV::Int(body_int(order, args, 1)))
        =~= seq![ArgV::Int(body_int(order, args, 0)), ArgV::Int(body_int(order, args, 1))]);
}

/// A body that decodes as four `int`s holds them in its four words.
proof fn lemma_four_ints(order: Endian, args: Seq<u8>, fds: Seq<i32>)
    requires
        args.len() == 16,
    ensures
        decode_args_spec(order, seq![ArgKind::Int, ArgKind::Int, ArgKind::Int, ArgKind::Int], args, fds).0 == Some(
            seq![
                ArgV::Int(body_int(order, args, 0)),
                ArgV::Int(body_int(order, args, 1)),
                ArgV::Int(body_int(order, args, 2)),
                ArgV::Int(body_int(order, args, 3)),
            ],
        ),
{
    reveal_with_fuel(decode_from, 6);
    assert(Seq::<ArgV>::empty().push(ArgV::Int(body_int(order, args, 0))).push(ArgV::Int(body_int(order, args, 1))).push(
        ArgV::Int(body_int(order, args, 2)),
    ).push(ArgV::Int(body_int(order, args, 3))) =~= seq![
        ArgV::Int(body_int(order, args, 0)),
        ArgV::Int(body_int(order, args, 1)),
        ArgV::Int(body_int(order, args, 2)),
        ArgV::Int(body_int(order, args, 3)),
    ]);
}

/// An empty body decodes as no arguments.
proof fn lemma_no_args(order: Endian, fds: Seq<i32>)
    ensures
        decode_args_spec(order, Seq::<ArgKind>::empty(), Seq::<u8>::empty(), fds).0 == Some(Seq::<ArgV>::empty()),
{
}

/// `xdg_surface.set_window_geometry` checks the size: a width or height that
/// is not positive is answered with the surface's `invalid_size` error about
/// that surface, and nothing is relayed; a positive size is relayed.
pub proof fn lemma_window_geometry_checked(order: Endian, s: SessionV, req: RequestV)
    requires
        s.resources.contains_key(req.sender_object_id),
        s.resources[req.sender_object_id].iface() == Interface::XdgSurface,
        req.opcode == 3,
        req.args.len() == 16,
    ensures
        ({
            let (s2, r) = handle_spec(order, s, req);
            let id = req.sender_object_id;
            &&& s2.resources == s.resources
            &&& !r.stop
            &&& if body_int(order, req.args, 2) <= 0 || body_int(order, req.args, 3) <= 0 {
                &&& r.events == seq![display_error(id, xdg_surface::enums::Error::InvalidSize.code(), invalid_geometry_text())]
                &&& r.next_action == NextAction::Nop
                &&& r.relay_buf.len() == 0
            } else {
                r.events.len() == 0 && r.next_action == NextAction::Relay
            }
        }),
{
    let id = req.sender_object_id;
    let k = seq![ArgKind::Int, ArgKind::Int, ArgKind::Int, ArgKind::Int];
    lemma_four_ints(order, req.args, s.fds + req.fds);
    lemma_relay_fits(order, id, req.opcode, k, req.args, s.fds + req.fds);
    let (s2, r) = handle_spec(order, s, req);
    assert(s2.resources =~= s.resources.remove(id).insert(id, s.resources[id]));
}

/// `wl_compositor.create_region` creates a region at the new id and keeps
/// the session going.
pub proof fn lemma_create_region(order: Endian, s: SessionV, req: RequestV)
    requires
        s.resources.contains_key(req.sender_object_id),
        s.resources[req.sender_object_id].iface() == Interface::WlCompositor,
        req.opcode == 1,
        req.args.len() == 4,
        body_word(order, req.args, 0) != req.sender_object_id,
    ensures
        ({
            let (s2, r) = handle_spec(order, s, req);
            &&& s2.resources == s.resources.insert(body_word(order, req.args, 0), Resource::WlRegion(WlRegion {  }))
            &&& r.events.len() == 0
            &&& !r.stop
        }),
{
    let id = req.sender_object_id;
    lemma_single_new_id(order, req.args, s.fds + req.fds);
    lemma_relay_fits(order, id, req.opcode, seq![ArgKind::NewId], req.args, s.fds + req.fds);
    assert(decode_args_spec(order, seq![ArgKind::NewId], req.args, s.fds + req.fds).0 is Some) by {
        reveal_with_fuel(decode_from, 3);
    }
    let (s2, r) = handle_spec(order, s, req);
    assert(s2.resources =~= s.resources.insert(body_word(order, req.args, 0), Resource::WlRegion(WlRegion {  })));
}

/// `wl_data_device.release` destroys the data device and is answered with
/// no error.
pub proof fn lemma_data_device_release(order: Endian, s: SessionV, req: RequestV)
    requires
        s.resources.contains_key(req.sender_object_id),
        s.resources[req.sender_object_id].iface() == Interface::WlDataDevice,
        req.opcode == 2,
        req.args.len() == 0,
    ensures
        ({
            let (s2, r) = handle_spec(order, s, req);
            &&& s2.resources == s.resources.remove(req.sender_object_id)
            &&& r.events.len() == 0
            &&& !r.stop
        }),
{
    lemma_no_args(order, s.fds + req.fds);
    assert(req.args =~= Seq::<u8>::empty());
}

/// `xdg_positioner.set_size` with a width or height that is not positive is
/// answered with the positioner's `invalid_input` error about that
/// positioner.
pub proof fn lemma_positioner_size_checked(order: Endian, s: SessionV, req: RequestV)
    requires
        s.resources.contains_key(req.sender_object_id),
        s.resources[req.sender_object_id].iface() == Interface::XdgPositioner,
        req.opcode == 1,
        req.args.len() == 8,
        body_int(order, req.args, 0) <= 0 || body_int(order, req.args, 1) <= 0,
    ensures
        ({
            let (s2, r) = handle_spec(order, s, req);
            &&& s2.resources == s.resources
            &&& r.events == seq![
                display_error(req.sender_object_id, xdg_positioner::enums::Error::InvalidInput.code(), invalid_size_text()),
            ]
            &&& r.next_action == NextAction::Nop
            &&& !r.stop
        }),
{
    let id = req.sender_object_id;
    lemma_two_ints(order, req.args, s.fds + req.fds);
    lemma_relay_fits(order, id, req.opcode, seq![ArgKind::Int, ArgKind::Int], req.args, s.fds + req.fds);
    let (s2, r) = handle_spec(order, s, req);
    assert(s2.resources =~= s.resources.remove(id).insert(id, s.resources[id]));
}

/// `xdg_wm_base.destroy` while an `xdg_surface` is alive is answered with
/// the `defunct_surfaces` error about the `xdg_wm_base`, which stays;
/// otherwise the `xdg_wm_base` is destroyed, with no error, and the request
/// is relayed.
pub proof fn lemma_wm_base_destroy(order: Endian, s: SessionV, req: RequestV)
    requires
        s.resources.contains_key(req.sender_object_id),
        s.resources[req.sender_object_id].iface() == Interface::XdgWmBase,
        req.opcode == 0,
        req.args.len() == 0,
    ensures
        ({
            let (s2, r) = handle_spec(order, s, req);
            let id = req.sender_object_id;
            &&& !r.stop
            &&& if has_xdg_surface_spec(s.resources) {
                &&& s2.resources == s.resources
                &&& r.events == seq![display_error(id, xdg_wm_base::enums::Error::DefunctSurfaces.code(), defunct_surfaces_text())]
                &&& r.next_action == NextAction::Nop
            } else {
                &&& s2.resources == s.resources.remove(id)
                &&& r.events.len() == 0
                &&& r.next_action == NextAction::Relay
            }
        }),
{
    let id = req.sender_object_id;
    lemma_no_args(order, s.fds + req.fds);
    assert(req.args =~= Seq::<u8>::empty());
    let ctx = s.resources.remove(id);
    assert(has_xdg_surface_spec(s.resources) == has_xdg_surface_spec(ctx)) by {
        if has_xdg_surface_spec(s.resources) {
            let k = choose|k: u32| s.resources.contains_key(k) && (#[trigger] s.resources[k]) is XdgSurface;
            assert(k != id);
            assert(ctx.contains_key(k) && ctx[k] is XdgSurface);
        }
    }
    let (s2, r) = handle_spec(order, s, req);
    assert(s2.resources =~= s.resources.remove(id).insert(id, s.resources[id]) || s2.resources =~= s.resources.remove(id));
    if has_xdg_surface_spec(s.resources) {
        assert(s2.resources =~= s.resources);
    }
}

/// The registry announces every global that `bind` gives an object for,
/// other than the registry and the display themselves.
pub proof fn lemma_bindable_globals_announced(registry: u32, name: u32)
    requires
        bind_target(name) is Some,
        name != wl_registry::GLOBAL_SINGLETON_NAME,
        name != wl_display::GLOBAL_SINGLETON_NAME,
    ensures
        exists|k: int| 0 <= k < globals(registry).len() && (#[trigger] globals(registry)[k] matches OutEventV::RegistryGlobal {
            name: n,
            ..
        } && n == name),
{
    let g = globals(registry);
    if name == wl_compositor::GLOBAL_SINGLETON_NAME {
        assert(g[0] matches OutEventV::RegistryGlobal { name: n, .. } && n == name);
    } else if name == wl_data_device_manager::GLOBAL_SINGLETON_NAME {
        assert(g[1] matches OutEventV::RegistryGlobal { name: n, .. } && n == name);
    } else if name == wl_shm::GLOBAL_SINGLETON_NAME {
        assert(g[2] matches OutEventV::RegistryGlobal { name: n, .. } && n == name);
    } else {
        assert(g[3] matches OutEventV::RegistryGlobal { name: n, .. } && n == name);
    }
}

/// A sync request: to the display `display`, with the callback id as its
/// one word.
pub open spec fn sync_request(order: Endian, display: u32, callback: u32) -> RequestV {
    RequestV { sender_object_id: display, opcode: 0, args: u32_bytes(order, callback), fds: Seq::empty() }
}

/// What one sync does: the serial goes up by one, and the `done` event
/// carries the new serial to the callback.
proof fn lemma_one_sync(order: Endian, s: SessionV, display: u32, callback: u32)
    requires
        s.resources.contains_key(display),
        s.resources[display].iface() == Interface::WlDisplay,
        s.callback_data < u32::MAX,
    ensures
        ({
            let (s2, r) = handle_spec(order, s, sync_request(order, display, callback));
            &&& s2.callback_data == s.callback_data + 1
            &&& s2.resources == s.resources
            &&& r.events == seq![OutEventV::CallbackDone { sender_object_id: callback, callback_data: s2.callback_data }]
        }),
{
    let req = sync_request(order, display, callback);
    let fds = s.fds + req.fds;
    lemma_u32_roundtrip(order, callback);
    assert(req.args.subrange(0, 4) =~= req.args);
    lemma_single_new_id(order, req.args, fds);
    assert(decode_args_spec(order, seq![ArgKind::NewId], req.args, fds).0 is Some) by {
        reveal_with_fuel(decode_from, 3);
    }
    lemma_relay_fits(order, display, 0, seq![ArgKind::NewId], req.args, fds);
    let s2 = handle_spec(order, s, req).0;
    assert(s2.resources =~= s.resources);
}

/// Serials increase by one from sync to sync: a second `wl_display.sync`,
/// on the session that the first one left, fires its callback with the
/// first one's serial plus one.
pub proof fn lemma_proxy_sync_serials(order: Endian, s: SessionV, display: u32, first: u32, second: u32)
    requires
        s.resources.contains_key(display),
        s.resources[display].iface() == Interface::WlDisplay,
        s.callback_data + 2 <= u32::MAX,
    ensures
        ({
            let (s1, r1) = handle_spec(order, s, sync_request(order, display, first));
            let (s2, r2) = handle_spec(order, s1, sync_request(order, display, second));
            &&& r1.events == seq![OutEventV::CallbackDone { sender_object_id: first, callback_data: s1.callback_data }]
            &&& r2.events == seq![OutEventV::CallbackDone { sender_object_id: second, callback_data: s2.callback_data }]
            &&& s1.callback_data == s.callback_data + 1
            &&& s2.callback_data == s1.callback_data + 1
        }),
{
    lemma_one_sync(order, s, display, first);
    let s1 = handle_spec(order, s, sync_request(order, display, first)).0;
    lemma_one_sync(order, s1, display, second);
}

/// Taking an object out for its handler and putting it back changes
/// nothing; and the session after a handler that does not destroy the
/// object is what the handler left, with the object back at its id: every
/// other object, the serial and the pending file descriptors are the
/// handler's.
pub proof fn lemma_object_put_back(order: Endian, s: SessionV, req: RequestV)
    requires
        s.resources.contains_key(req.sender_object_id),
    ensures
        put_back(take_out(s, req.sender_object_id), req.sender_object_id, s.resources[req.sender_object_id]) == s,
        ({
            let id = req.sender_object_id;
            let res = s.resources[id];
            let ctx = take_out(SessionV { resources: s.resources, callback_data: s.callback_data, fds: s.fds + req.fds }, id);
            let (s2, r, destroyed) = dispatch_spec(order, res.iface(), id, req.opcode, req.args, ctx);
            let after = handle_spec(order, s, req).0;
            !destroyed ==> {
                &&& after.resources == s2.resources.insert(id, res)
                &&& forall|k: u32| k != id ==> #[trigger] after.resources.contains_key(k) == s2.resources.contains_key(k)
                    && (s2.resources.contains_key(k) ==> after.resources[k] == s2.resources[k])
                &&& after.callback_data == s2.callback_data
                &&& after.fds == s2.fds
            }
        }),
{
    let id = req.sender_object_id;
    assert(s.resources.remove(id).insert(id, s.resources[id]) =~= s.resources);
}


/// Every `wl_surface` request (`destroy` 0 to `damage_buffer` 9) whose
/// arguments decode goes to the compositor: it is relayed as exactly the
/// bytes that the client sent, nothing answers it, the session goes on and
/// the client's objects stay as they were.
pub proof fn lemma_surface_requests_relayed(order: Endian, s: SessionV, req: RequestV)
    requires
        s.resources.contains_key(req.sender_object_id),
        s.resources[req.sender_object_id].iface() == Interface::WlSurface,
        req.opcode <= 9,
        decode_args_spec(order, Interface::WlSurface.kinds(req.opcode)->0, req.args, s.fds + req.fds).0 is Some,
        8 + req.args.len() <= 0xffff,
    ensures
        ({
            let (s2, r) = handle_spec(order, s, req);
            &&& r.next_action == NextAction::Relay
            &&& r.events == Seq::<OutEventV>::empty()
            &&& !r.stop
            &&& r.relay_buf == u32_bytes(order, req.sender_object_id) + u32_bytes(
                order,
                size_and_opcode(8 + req.args.len() as int, req.opcode),
            ) + req.args
            &&& s2.resources == s.resources
        }),
{
    let id = req.sender_object_id;
    let k = Interface::WlSurface.kinds(req.opcode)->0;
    assert(forall|j: int| 0 <= j < k.len() ==> is_word_kind(#[trigger] k[j]));
    lemma_relay_fits(order, id, req.opcode, k, req.args, s.fds + req.fds);
    lemma_relay_unchanged(order, s, req);
    let res = s.resources[id];
    assert(s.resources.remove(id).insert(id, res) =~= s.resources);
}

/// The requests of `wl_shell` (`get_shell_surface`), `wl_subcompositor`
/// (all), `wl_subsurface` (all) and `xdg_surface` (all but
/// `set_window_geometry`, which is checked first) whose arguments decode go
/// to the compositor: each is relayed as exactly the bytes that the client
/// sent, nothing answers it, the session goes on and the client's objects
/// stay as they were.
pub proof fn lemma_passthrough_requests_relayed(order: Endian, s: SessionV, req: RequestV)
    requires
        s.resources.contains_key(req.sender_object_id),
        ({
            let i = s.resources[req.sender_object_id].iface();
            ||| i == Interface::WlShell && req.opcode == 0
            ||| i == Interface::WlSubcompositor && req.opcode <= 1
            ||| i == Interface::WlSubsurface && req.opcode <= 5
            ||| i == Interface::XdgSurface && req.opcode <= 4 && req.opcode != 3
        }),
        decode_args_spec(
            order,
            s.resources[req.sender_object_id].iface().kinds(req.opcode)->0,
            req.args,
            s.fds + req.fds,
        ).0 is Some,
        8 + req.args.len() <= 0xffff,
    ensures
        ({
            let (s2, r) = handle_spec(order, s, req);
            &&& r.next_action == NextAction::Relay
            &&& r.events == Seq::<OutEventV>::empty()
            &&& !r.stop
            &&& r.relay_buf == u32_bytes(order, req.sender_object_id) + u32_bytes(
                order,
                size_and_opcode(8 + req.args.len() as int, req.opcode),
            ) + req.args
            &&& s2.resources == s.resources
        }),
{
    let id = req.sender_object_id;
    let k = s.resources[id].iface().kinds(req.opcode)->0;
    assert(forall|j: int| 0 <= j < k.len() ==> is_word_kind(#[trigger] k[j]));
    lemma_relay_fits(order, id, req.opcode, k, req.args, s.fds + req.fds);
    lemma_relay_unchanged(order, s, req);
    let res = s.resources[id];
    assert(s.resources.remove(id).insert(id, res) =~= s.resources);
}

/// The requests to `wl_pointer`, `wl_keyboard`, `wl_touch`, `wl_output`,
/// `xdg_popup`, `wl_data_source`, `wl_data_device_manager` and the
/// requests but `destroy` to `xdg_wm_base`, whose arguments decode, stay
/// with the proxy: nothing is relayed, nothing answers them and the
/// client's objects stay as they were.
pub proof fn lemma_kept_requests_stay(order: Endian, s: SessionV, req: RequestV)
    requires
        s.resources.contains_key(req.sender_object_id),
        ({
            let i = s.resources[req.sender_object_id].iface();
            ||| i == Interface::WlPointer
            ||| i == Interface::WlKeyboard
            ||| i == Interface::WlTouch
            ||| i == Interface::WlOutput
            ||| i == Interface::XdgPopup
            ||| i == Interface::WlDataSource
            ||| i == Interface::WlDataDeviceManager
            ||| i == Interface::XdgWmBase && req.opcode != 0
        }),
        s.resources[req.sender_object_id].iface().kinds(req.opcode) is Some,
        decode_args_spec(
            order,
            s.resources[req.sender_object_id].iface().kinds(req.opcode)->0,
            req.args,
            s.fds + req.fds,
        ).0 is Some,
    ensures
        ({
            let (s2, r) = handle_spec(order, s, req);
            &&& r.next_action == NextAction::Nop
            &&& r.relay_buf == Seq::<u8>::empty()
            &&& r.events == Seq::<OutEventV>::empty()
            &&& s2.resources == s.resources
        }),
{
    let id = req.sender_object_id;
    let res = s.resources[id];
    assert(s.resources.remove(id).insert(id, res) =~= s.resources);
}

} // verus!
