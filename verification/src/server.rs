//! A small self-contained Wayland server: it keeps the client's objects
//! itself and answers every request on its own, with no compositor behind
//! it. It announces three globals (`wl_compositor`, `wl_shm` and
//! `xdg_wm_base`), lets the client bind them, create surfaces, shared-memory
//! pools and buffers, and destroy what it created; every other request is
//! answered with a `wl_display` error.

use crate::codec::WaylandRequest;
use crate::event::{encode_into, Event};
use crate::message::{
    args_size, args_view, args_wire, blob_wire, body_int, body_word, carries_word, lemma_message_bytes, message_wire, pad4, padded_len,
    size_and_opcode, Arg, ArgV, EncodeError,
};
use crate::text::{
    bind_not_found_message, bind_not_found_text, create_positioner_message, create_positioner_text, debug_bytes,
    object_not_found_message, object_not_found_text, object_opcode_not_found_message,
    object_opcode_not_found_text, surface_not_found_message, surface_not_found_text,
};
use crate::wire::{i32_bytes, lemma_i32_roundtrip, lemma_u32_roundtrip, read_i32_at, read_u32_at, u32_bytes, Endian};
use bytes::BytesMut;
use crate::protocol::xdg_shell::xdg_wm_base::enums::Error as WmBaseError;
use std::collections::HashMap;
use vstd::prelude::*;
use vstd::utf8::encode_utf8;

verus! {

broadcast use vstd::std_specs::hash::group_hash_axioms;
use vstd::std_specs::hash::spec_hash_map_iter;
use vstd::std_specs::iter::IteratorSpec;

/// The id of the display object.
pub const SERVER_DISPLAY_ID: u32 = 1;

/// The `wl_display` error code for a request to an object that does not exist.
pub const ERROR_INVALID_OBJECT: u32 = 0;

/// The `wl_display` error code for a request that the object does not take.
pub const ERROR_INVALID_METHOD: u32 = 1;

/// The `wl_shm` format `argb8888`.
pub const FORMAT_ARGB8888: u32 = 0;

/// The `wl_shm` format `xrgb8888`.
pub const FORMAT_XRGB8888: u32 = 1;

/// The version of `wl_compositor` that the registry announces.
pub const COMPOSITOR_VERSION: u32 = 1;

/// The version of `wl_shm` that the registry announces.
pub const SHM_VERSION: u32 = 1;

/// The version of `xdg_wm_base` that the registry announces.
pub const XDG_WM_BASE_VERSION: u32 = 2;

/// An object of the client, as the server keeps it.
#[derive(Clone, Copy, Debug, PartialEq, Eq, Structural)]
pub enum ServerObject {
    WlDisplay,
    WlRegistry,
    WlShm,
    WlCompositor,
    WlSurface,
    XdgWmBase,
    /// An `xdg_surface`, with the id of the `wl_surface` it was made for and
    /// the id of the `xdg_wm_base` that made it.
    XdgSurface { wl_surface_id: u32, wm_base_id: u32 },
    XdgToplevel,
    WlBuffer { offset: i32, width: i32, height: i32, stride: i32, format: u32 },
    WlShmPool { fd: u32, size: i32 },
}

/// The kind of an object, without what it holds.
#[derive(Clone, Copy, Debug, PartialEq, Eq, Structural)]
pub enum ObjectKind {
    WlDisplay,
    WlRegistry,
    WlShm,
    WlCompositor,
    WlSurface,
    XdgWmBase,
    XdgSurface,
    XdgToplevel,
    WlBuffer,
    WlShmPool,
}

impl ServerObject {
    /// The kind of the object.
    pub open spec fn kind_of(self) -> ObjectKind {
        match self {
            ServerObject::WlDisplay => ObjectKind::WlDisplay,
            ServerObject::WlRegistry => ObjectKind::WlRegistry,
            ServerObject::WlShm => ObjectKind::WlShm,
            ServerObject::WlCompositor => ObjectKind::WlCompositor,
            ServerObject::WlSurface => ObjectKind::WlSurface,
            ServerObject::XdgWmBase => ObjectKind::XdgWmBase,
            ServerObject::XdgSurface { .. } => ObjectKind::XdgSurface,
            ServerObject::XdgToplevel => ObjectKind::XdgToplevel,
            ServerObject::WlBuffer { .. } => ObjectKind::WlBuffer,
            ServerObject::WlShmPool { .. } => ObjectKind::WlShmPool,
        }
    }

    /// The kind of the object.
    pub fn kind(&self) -> (r: ObjectKind)
        ensures
            r == self.kind_of(),
    {
        match self {
            ServerObject::WlDisplay => ObjectKind::WlDisplay,
            ServerObject::WlRegistry => ObjectKind::WlRegistry,
            ServerObject::WlShm => ObjectKind::WlShm,
            ServerObject::WlCompositor => ObjectKind::WlCompositor,
            ServerObject::WlSurface => ObjectKind::WlSurface,
            ServerObject::XdgWmBase => ObjectKind::XdgWmBase,
            ServerObject::XdgSurface { .. } => ObjectKind::XdgSurface,
            ServerObject::XdgToplevel => ObjectKind::XdgToplevel,
            ServerObject::WlBuffer { .. } => ObjectKind::WlBuffer,
            ServerObject::WlShmPool { .. } => ObjectKind::WlShmPool,
        }
    }

    /// The name that error messages give the object's type.
    pub open spec fn kind_name(self) -> Seq<char> {
        match self {
            ServerObject::WlDisplay => "WlDisplay"@,
            ServerObject::WlRegistry => "WlRegistry"@,
            ServerObject::WlShm => "WlShm"@,
            ServerObject::WlCompositor => "WlCompositor"@,
            ServerObject::WlSurface => "WlSurface"@,
            ServerObject::XdgWmBase => "XdgWmBase"@,
            ServerObject::XdgSurface { .. } => "XdgSurface"@,
            ServerObject::XdgToplevel => "XdgToplevel"@,
            ServerObject::WlBuffer { .. } => "WlBuffer"@,
            ServerObject::WlShmPool { .. } => "WlShmPool"@,
        }
    }

    /// The name that error messages give the object's type.
    pub fn name(&self) -> (r: &'static str)
        ensures
            r@ == self.kind_name(),
    {
        match self {
            ServerObject::WlDisplay => "WlDisplay",
            ServerObject::WlRegistry => "WlRegistry",
            ServerObject::WlShm => "WlShm",
            ServerObject::WlCompositor => "WlCompositor",
            ServerObject::WlSurface => "WlSurface",
            ServerObject::XdgWmBase => "XdgWmBase",
            ServerObject::XdgSurface { .. } => "XdgSurface",
            ServerObject::XdgToplevel => "XdgToplevel",
            ServerObject::WlBuffer { .. } => "WlBuffer",
            ServerObject::WlShmPool { .. } => "WlShmPool",
        }
    }
}

/// A `wl_display.error` event: always sent by the display object.
pub struct WlDisplayError {
    pub object_id: u32,
    pub code: u32,
    pub message: String,
}

/// A `wl_shm.format` event.
pub struct WlShmFormat {
    pub sender_object_id: u32,
    pub format: u32,
}

/// A `wl_registry.global` event.
pub struct WlRegistryGlobal {
    pub sender_object_id: u32,
    pub name: u32,
    pub interface: String,
    pub version: u32,
}

/// A `wl_callback.done` event.
pub struct WlCallbackDone {
    pub sender_object_id: u32,
    pub callback_data: u32,
}

impl WlDisplayError {
    /// The arguments of the event. The message's length field counts the
    /// message, its NUL and the padding after it.
    pub open spec fn args(&self) -> Seq<ArgV> {
        seq![ArgV::Uint(self.object_id), ArgV::Uint(self.code), ArgV::StrPadded(self.message@)]
    }
}

impl Event for WlDisplayError {
    open spec fn wire(&self, order: Endian) -> Seq<u8> {
        message_wire(order, SERVER_DISPLAY_ID, 0, self.args())
    }

    open spec fn encodable(&self, order: Endian) -> bool {
        self.wire(order).len() <= 0xffff
    }

    fn encode(&self, order: Endian, dst: &mut BytesMut) -> (r: Result<(), EncodeError>) {
        let mut args: Vec<Arg> = Vec::new();
        args.push(Arg::Uint(self.object_id));
        args.push(Arg::Uint(self.code));
        args.push(Arg::StrPadded(self.message.clone()));
        assert(args_view(args@) =~= self.args());
        encode_into(order, SERVER_DISPLAY_ID, 0, &args, dst)
    }
}

impl WlShmFormat {
    /// The arguments of the event.
    pub open spec fn args(&self) -> Seq<ArgV> {
        seq![ArgV::Uint(self.format)]
    }
}

impl Event for WlShmFormat {
    open spec fn wire(&self, order: Endian) -> Seq<u8> {
        message_wire(order, self.sender_object_id, 0, self.args())
    }

    open spec fn encodable(&self, order: Endian) -> bool {
        self.wire(order).len() <= 0xffff
    }

    fn encode(&self, order: Endian, dst: &mut BytesMut) -> (r: Result<(), EncodeError>) {
        let mut args: Vec<Arg> = Vec::new();
        args.push(Arg::Uint(self.format));
        assert(args_view(args@) =~= self.args());
        encode_into(order, self.sender_object_id, 0, &args, dst)
    }
}

impl WlRegistryGlobal {
    /// The arguments of the event. The interface's length field counts the
    /// name, its NUL and the padding after it.
    pub open spec fn args(&self) -> Seq<ArgV> {
        seq![ArgV::Uint(self.name), ArgV::StrPadded(self.interface@), ArgV::Uint(self.version)]
    }
}

impl Event for WlRegistryGlobal {
    open spec fn wire(&self, order: Endian) -> Seq<u8> {
        message_wire(order, self.sender_object_id, 0, self.args())
    }

    open spec fn encodable(&self, order: Endian) -> bool {
        self.wire(order).len() <= 0xffff
    }

    fn encode(&self, order: Endian, dst: &mut BytesMut) -> (r: Result<(), EncodeError>) {
        let mut args: Vec<Arg> = Vec::new();
        args.push(Arg::Uint(self.name));
        args.push(Arg::StrPadded(self.interface.clone()));
        args.push(Arg::Uint(self.version));
        assert(args_view(args@) =~= self.args());
        encode_into(order, self.sender_object_id, 0, &args, dst)
    }
}

impl WlCallbackDone {
    /// The arguments of the event.
    pub open spec fn args(&self) -> Seq<ArgV> {
        seq![ArgV::Uint(self.callback_data)]
    }
}

impl Event for WlCallbackDone {
    open spec fn wire(&self, order: Endian) -> Seq<u8> {
        message_wire(order, self.sender_object_id, 0, self.args())
    }

    open spec fn encodable(&self, order: Endian) -> bool {
        self.wire(order).len() <= 0xffff
    }

    fn encode(&self, order: Endian, dst: &mut BytesMut) -> (r: Result<(), EncodeError>) {
        let mut args: Vec<Arg> = Vec::new();
        args.push(Arg::Uint(self.callback_data));
        assert(args_view(args@) =~= self.args());
        encode_into(order, self.sender_object_id, 0, &args, dst)
    }
}

/// An event that the server sends to its client.
pub enum ServerEvent {
    DisplayError(WlDisplayError),
    ShmFormat(WlShmFormat),
    RegistryGlobal(WlRegistryGlobal),
    CallbackDone(WlCallbackDone),
}

/// What an event holds, for specifications.
pub enum ServerEventV {
    DisplayError { object_id: u32, code: u32, message: Seq<char> },
    ShmFormat { sender_object_id: u32, format: u32 },
    RegistryGlobal { sender_object_id: u32, name: u32, interface: Seq<char>, version: u32 },
    CallbackDone { sender_object_id: u32, callback_data: u32 },
}

impl View for ServerEvent {
    type V = ServerEventV;

    open spec fn view(&self) -> ServerEventV {
        match self {
            ServerEvent::DisplayError(e) => ServerEventV::DisplayError {
                object_id: e.object_id,
                code: e.code,
                message: e.message@,
            },
            ServerEvent::ShmFormat(e) => ServerEventV::ShmFormat { sender_object_id: e.sender_object_id, format: e.format },
            ServerEvent::RegistryGlobal(e) => ServerEventV::RegistryGlobal {
                sender_object_id: e.sender_object_id,
                name: e.name,
                interface: e.interface@,
                version: e.version,
            },
            ServerEvent::CallbackDone(e) => ServerEventV::CallbackDone {
                sender_object_id: e.sender_object_id,
                callback_data: e.callback_data,
            },
        }
    }
}

impl Event for ServerEvent {
    open spec fn wire(&self, order: Endian) -> Seq<u8> {
        match self {
            ServerEvent::DisplayError(e) => e.wire(order),
            ServerEvent::ShmFormat(e) => e.wire(order),
            ServerEvent::RegistryGlobal(e) => e.wire(order),
            ServerEvent::CallbackDone(e) => e.wire(order),
        }
    }

    open spec fn encodable(&self, order: Endian) -> bool {
        self.wire(order).len() <= 0xffff
    }

    fn encode(&self, order: Endian, dst: &mut BytesMut) -> (r: Result<(), EncodeError>) {
        match self {
            ServerEvent::DisplayError(e) => e.encode(order, dst),
            ServerEvent::ShmFormat(e) => e.encode(order, dst),
            ServerEvent::RegistryGlobal(e) => e.encode(order, dst),
            ServerEvent::CallbackDone(e) => e.encode(order, dst),
        }
    }
}

/// The views of a sequence of events.
pub open spec fn server_events_view(events: Seq<ServerEvent>) -> Seq<ServerEventV> {
    events.map_values(|e: ServerEvent| e@)
}

/// A `wl_display.error` event.
pub open spec fn server_error(object_id: u32, code: u32, message: Seq<char>) -> ServerEventV {
    ServerEventV::DisplayError { object_id, code, message }
}

/// The one error that answers a request the object does not take.
pub open spec fn not_taken(name: Seq<char>, id: u32, opcode: u16, args: Seq<u8>) -> Seq<ServerEventV> {
    seq![server_error(id, ERROR_INVALID_METHOD, object_opcode_not_found_text(name, id, opcode, debug_bytes(args)))]
}

/// What the server holds, for specifications.
pub struct ServerV {
    pub objects: Map<u32, ServerObject>,
    pub next_callback_data: u32,
    pub compositor_name: u32,
    pub shm_name: u32,
    pub xdg_wm_base_name: u32,
}

/// The server's state for one client.
pub struct ServerState {
    /// The client's objects, by id.
    pub objects: HashMap<u32, ServerObject>,
    /// The serial of the last `wl_display.sync` callback.
    pub next_callback_data: u32,
    /// The global name of `wl_compositor`.
    pub compositor_name: u32,
    /// The global name of `wl_shm`.
    pub shm_name: u32,
    /// The global name of `xdg_wm_base`.
    pub xdg_wm_base_name: u32,
}

impl View for ServerState {
    type V = ServerV;

    open spec fn view(&self) -> ServerV {
        ServerV {
            objects: self.objects@,
            next_callback_data: self.next_callback_data,
            compositor_name: self.compositor_name,
            shm_name: self.shm_name,
            xdg_wm_base_name: self.xdg_wm_base_name,
        }
    }
}

/// `s` with object `o` at id `k`.
pub open spec fn with_object(s: ServerV, k: u32, o: ServerObject) -> ServerV {
    ServerV { objects: s.objects.insert(k, o), ..s }
}

/// `s` without the object at id `k`.
pub open spec fn without_object(s: ServerV, k: u32) -> ServerV {
    ServerV { objects: s.objects.remove(k), ..s }
}

/// What `wl_registry.bind` of global `name` as object `new_id`, sent to
/// registry `id`, does: the global's object goes to `new_id` (a `wl_shm`
/// also announces its two formats); an unknown name is an error.
pub open spec fn bind_spec(s: ServerV, id: u32, name: u32, new_id: u32) -> (ServerV, Seq<ServerEventV>) {
    if name == s.compositor_name {
        (with_object(s, new_id, ServerObject::WlCompositor), Seq::empty())
    } else if name == s.shm_name {
        (
            with_object(s, new_id, ServerObject::WlShm),
            seq![
                ServerEventV::ShmFormat { sender_object_id: new_id, format: FORMAT_ARGB8888 },
                ServerEventV::ShmFormat { sender_object_id: new_id, format: FORMAT_XRGB8888 },
            ],
        )
    } else if name == s.xdg_wm_base_name {
        (with_object(s, new_id, ServerObject::XdgWmBase), Seq::empty())
    } else {
        (s, seq![server_error(id, ERROR_INVALID_METHOD, bind_not_found_text(id, name, new_id))])
    }
}

/// The globals that the registry announces, in order.
pub open spec fn announced_globals(s: ServerV, registry: u32) -> Seq<ServerEventV> {
    seq![
        ServerEventV::RegistryGlobal {
            sender_object_id: registry,
            name: s.compositor_name,
            interface: "wl_compositor"@,
            version: COMPOSITOR_VERSION,
        },
        ServerEventV::RegistryGlobal { sender_object_id: registry, name: s.shm_name, interface: "wl_shm"@, version: SHM_VERSION },
        ServerEventV::RegistryGlobal {
            sender_object_id: registry,
            name: s.xdg_wm_base_name,
            interface: "xdg_wm_base"@,
            version: XDG_WM_BASE_VERSION,
        },
    ]
}

/// Whether the long form of `wl_registry.bind` (with the interface name)
/// runs past the body: the name's bytes, the version or the id are missing.
pub open spec fn bind_runs_past(order: Endian, args: Seq<u8>) -> bool {
    16 + pad4(body_word(order, args, 1) as int) > args.len()
}

/// Requests to the display: `sync` (opcode 0) and `get_registry`
/// (opcode 1), each with at least one word.
pub open spec fn display_spec(order: Endian, s: ServerV, id: u32, opcode: u16, args: Seq<u8>) -> (ServerV, Seq<ServerEventV>) {
    let w0 = body_word(order, args, 0);
    if opcode == 0 && args.len() >= 4 {
        let data = (s.next_callback_data + 1) as u32;
        (
            ServerV { next_callback_data: data, ..s },
            seq![ServerEventV::CallbackDone { sender_object_id: w0, callback_data: data }],
        )
    } else if opcode == 1 && args.len() >= 4 {
        (with_object(s, w0, ServerObject::WlRegistry), announced_globals(s, w0))
    } else {
        (s, seq![server_error(id, ERROR_INVALID_METHOD, object_opcode_not_found_text("WlDisplay"@, SERVER_DISPLAY_ID, opcode, debug_bytes(args)))])
    }
}

/// Requests to the registry: `bind` (opcode 0), short (name, id) or long
/// (name, interface, version, id).
pub open spec fn registry_spec(order: Endian, s: ServerV, id: u32, opcode: u16, args: Seq<u8>) -> (ServerV, Seq<ServerEventV>) {
    if opcode == 0 && args.len() == 8 {
        bind_spec(s, id, body_word(order, args, 0), body_word(order, args, 1))
    } else if opcode == 0 && args.len() > 8 && args.len() == 16 + pad4(body_word(order, args, 1) as int) {
        bind_spec(s, id, body_word(order, args, 0), body_word(order, args, (args.len() - 4) / 4))
    } else {
        (s, not_taken("WlRegistry"@, id, opcode, args))
    }
}

/// Whether an `xdg_surface` that the `xdg_wm_base` `wm_base` made is alive.
pub open spec fn has_surfaces_of(objects: Map<u32, ServerObject>, wm_base: u32) -> bool {
    exists|k: u32|
        objects.contains_key(k) && (#[trigger] objects[k] matches ServerObject::XdgSurface { wm_base_id, .. }
            && wm_base_id == wm_base)
}

/// The message of the error that refuses to destroy an `xdg_wm_base` while
/// an `xdg_surface` that it made is alive.
pub open spec fn defunct_surfaces_text() -> Seq<char> {
    "XdgWmBase::destroy: surfaces are still alive"@
}

/// Requests to `xdg_wm_base`: `destroy` (0, refused with `defunct_surfaces`
/// while an `xdg_surface` it made is alive), `create_positioner` (1,
/// refused), `get_xdg_surface` (2, for an existing `wl_surface`).
pub open spec fn wm_base_spec(order: Endian, s: ServerV, id: u32, opcode: u16, args: Seq<u8>) -> (ServerV, Seq<ServerEventV>) {
    let w0 = body_word(order, args, 0);
    let w1 = body_word(order, args, 1);
    if opcode == 0 && args.len() == 0 {
        if has_surfaces_of(s.objects, id) {
            (s, seq![server_error(id, WmBaseError::DefunctSurfaces.code(), defunct_surfaces_text())])
        } else {
            (without_object(s, id), Seq::empty())
        }
    } else if opcode == 1 && args.len() == 4 {
        (s, seq![server_error(id, ERROR_INVALID_METHOD, create_positioner_text(id, w0))])
    } else if opcode == 2 && args.len() == 8 {
        if s.objects.contains_key(w1) && s.objects[w1] == ServerObject::WlSurface {
            (with_object(s, w0, ServerObject::XdgSurface { wl_surface_id: w1, wm_base_id: id }), Seq::empty())
        } else {
            (s, seq![server_error(id, ERROR_INVALID_METHOD, surface_not_found_text(id, w0, w1))])
        }
    } else {
        (s, not_taken("XdgWmBase"@, id, opcode, args))
    }
}

/// What a request to object `id`, which is `obj`, does.
pub open spec fn object_spec(order: Endian, s: ServerV, obj: ServerObject, id: u32, opcode: u16, args: Seq<u8>) -> (
    ServerV,
    Seq<ServerEventV>,
) {
    let w0 = body_word(order, args, 0);
    let none = Seq::<ServerEventV>::empty();
    let refused = (s, not_taken(obj.kind_name(), id, opcode, args));
    match obj {
        ServerObject::WlDisplay => display_spec(order, s, id, opcode, args),
        ServerObject::WlRegistry => registry_spec(order, s, id, opcode, args),
        ServerObject::XdgWmBase => wm_base_spec(order, s, id, opcode, args),
        ServerObject::WlCompositor => if opcode == 0 && args.len() == 4 {
            (with_object(s, w0, ServerObject::WlSurface), none)
        } else {
            refused
        },
        ServerObject::WlSurface => if opcode == 1 && args.len() == 0 {
            (without_object(s, id), none)
        } else if opcode == 6 && args.len() == 0 {
            (s, none)
        } else {
            refused
        },
        ServerObject::WlShm => if opcode == 0 && args.len() == 12 {
            (with_object(s, w0, ServerObject::WlShmPool { fd: body_word(order, args, 1), size: body_int(order, args, 2) }), none)
        } else if opcode == 1 && args.len() == 0 {
            (without_object(s, id), none)
        } else {
            refused
        },
        ServerObject::WlShmPool { .. } => if opcode == 0 && args.len() == 24 {
            (
                with_object(
                    s,
                    w0,
                    ServerObject::WlBuffer {
                        offset: body_int(order, args, 1),
                        width: body_int(order, args, 2),
                        height: body_int(order, args, 3),
                        stride: body_int(order, args, 4),
                        format: body_word(order, args, 5),
                    },
                ),
                none,
            )
        } else if opcode == 1 && args.len() == 0 {
            (without_object(s, id), none)
        } else {
            refused
        },
        ServerObject::XdgSurface { .. } => if opcode == 0 && args.len() == 0 {
            (without_object(s, id), none)
        } else if opcode == 1 && args.len() == 4 {
            (with_object(s, w0, ServerObject::XdgToplevel), none)
        } else {
            refused
        },
        ServerObject::XdgToplevel => if opcode == 0 && args.len() == 0 {
            (without_object(s, id), none)
        } else {
            refused
        },
        ServerObject::WlBuffer { .. } => if opcode == 0 && args.len() == 0 {
            (without_object(s, id), none)
        } else {
            refused
        },
    }
}

/// What one request does: a request to an object that does not exist is
/// answered with an `invalid_object` error; otherwise the object handles it.
pub open spec fn server_step(order: Endian, s: ServerV, id: u32, opcode: u16, args: Seq<u8>) -> (ServerV, Seq<ServerEventV>) {
    if !s.objects.contains_key(id) {
        (s, seq![server_error(SERVER_DISPLAY_ID, ERROR_INVALID_OBJECT, object_not_found_text(id, opcode, debug_bytes(args)))])
    } else {
        object_spec(order, s, s.objects[id], id, opcode, args)
    }
}

/// The requests on which the server's reading of its input panics: a long
/// `wl_registry.bind` that runs past its body, and a `wl_display.sync` when
/// the callback serial is at its maximum.
pub open spec fn server_panics(order: Endian, s: ServerV, id: u32, opcode: u16, args: Seq<u8>) -> bool {
    &&& s.objects.contains_key(id)
    &&& {
        ||| (s.objects[id] == ServerObject::WlRegistry && opcode == 0 && args.len() > 8 && bind_runs_past(order, args))
        ||| (s.objects[id] == ServerObject::WlDisplay && opcode == 0 && args.len() >= 4 && s.next_callback_data
            == u32::MAX)
    }
}

/// Whether an `xdg_surface` that the `xdg_wm_base` `wm_base` made is alive.
fn has_surfaces_made_by(m: &HashMap<u32, ServerObject>, wm_base: u32) -> (r: bool)
    ensures
        r == has_surfaces_of(m@, wm_base),
{
    let ghost all = spec_hash_map_iter(m).remaining();
    let mut found = false;
    for kv in it: m.iter()
        invariant
            all == spec_hash_map_iter(m).remaining(),
            it.seq() == all,
            found == exists|j: int|
                0 <= j < it.index() && ((*(#[trigger] all[j]).1) matches ServerObject::XdgSurface { wm_base_id, .. }
                    && wm_base_id == wm_base),
    {
        match kv.1 {
            ServerObject::XdgSurface { wm_base_id, .. } => {
                if *wm_base_id == wm_base {
                    found = true;
                }
            },
            _ => {},
        }
    }
    assert(found == exists|j: int|
        0 <= j < all.len() && ((*(#[trigger] all[j]).1) matches ServerObject::XdgSurface { wm_base_id, .. }
            && wm_base_id == wm_base));
    proof {
        if found {
            let j = choose|j: int|
                0 <= j < all.len() && ((*(#[trigger] all[j]).1) matches ServerObject::XdgSurface { wm_base_id, .. }
                    && wm_base_id == wm_base);
            assert(m@.contains_key(*all[j].0) && m@[*all[j].0] == *all[j].1);
        } else {
            assert forall|k: u32| m@.contains_key(k) implies !((#[trigger] m@[k]) matches ServerObject::XdgSurface {
                wm_base_id,
                ..
            } && wm_base_id == wm_base) by {
                assert(all.contains((&k, &m@[k])));
            }
        }
    }
    found
}

/// A list of one error event.
fn one_error(object_id: u32, code: u32, message: String) -> (r: Vec<ServerEvent>)
    ensures
        server_events_view(r@) == seq![server_error(object_id, code, message@)],
{
    let mut v: Vec<ServerEvent> = Vec::new();
    v.push(ServerEvent::DisplayError(WlDisplayError { object_id, code, message }));
    assert(server_events_view(v@) =~= seq![server_error(object_id, code, message@)]);
    v
}

/// No events.
fn no_events() -> (r: Vec<ServerEvent>)
    ensures
        server_events_view(r@) == Seq::<ServerEventV>::empty(),
{
    let v: Vec<ServerEvent> = Vec::new();
    assert(server_events_view(v@) =~= Seq::<ServerEventV>::empty());
    v
}

/// The error that refuses a request the object does not take.
fn refuse(name: &str, id: u32, opcode: u16, args: &Vec<u8>) -> (r: Vec<ServerEvent>)
    ensures
        server_events_view(r@) == not_taken(name@, id, opcode, args@),
{
    one_error(id, ERROR_INVALID_METHOD, object_opcode_not_found_message(name, id, opcode, args))
}

impl ServerState {
    /// A server whose display is object 1 and whose globals are named 1
    /// (`wl_compositor`), 2 (`wl_shm`) and 3 (`xdg_wm_base`).
    pub fn new() -> (r: ServerState)
        ensures
            r@.objects == Map::<u32, ServerObject>::empty().insert(SERVER_DISPLAY_ID, ServerObject::WlDisplay),
            r@.next_callback_data == 0,
            r@.compositor_name == 1,
            r@.shm_name == 2,
            r@.xdg_wm_base_name == 3,
    {
        let mut objects: HashMap<u32, ServerObject> = HashMap::new();
        objects.insert(SERVER_DISPLAY_ID, ServerObject::WlDisplay);
        ServerState { objects, next_callback_data: 0, compositor_name: 1, shm_name: 2, xdg_wm_base_name: 3 }
    }

    /// Puts object `o` at id `k`.
    pub fn put(&mut self, k: u32, o: ServerObject)
        ensures
            final(self)@ == with_object(old(self)@, k, o),
    {
        self.objects.insert(k, o);
    }

    /// Destroys the object at id `id` if it is of kind `kind`: says whether
    /// it did, and leaves everything as it was when it did not.
    pub fn destroy_if(&mut self, id: u32, kind: ObjectKind) -> (removed: bool)
        ensures
            removed == (old(self)@.objects.contains_key(id) && old(self)@.objects[id].kind_of() == kind),
            final(self)@ == if removed {
                without_object(old(self)@, id)
            } else {
                old(self)@
            },
    {
        let removed = match self.objects.get(&id) {
            Some(o) => o.kind() == kind,
            None => false,
        };
        if removed {
            self.objects.remove(&id);
        }
        removed
    }

    /// `wl_registry.bind`: gives the global `name` the id `new_id`.
    pub fn bind(&mut self, id: u32, name: u32, new_id: u32) -> (r: Vec<ServerEvent>)
        ensures
            (final(self)@, server_events_view(r@)) == bind_spec(old(self)@, id, name, new_id),
    {
        if name == self.compositor_name {
            self.put(new_id, ServerObject::WlCompositor);
            no_events()
        } else if name == self.shm_name {
            self.put(new_id, ServerObject::WlShm);
            let mut v: Vec<ServerEvent> = Vec::new();
            v.push(ServerEvent::ShmFormat(WlShmFormat { sender_object_id: new_id, format: FORMAT_ARGB8888 }));
            v.push(ServerEvent::ShmFormat(WlShmFormat { sender_object_id: new_id, format: FORMAT_XRGB8888 }));
            assert(server_events_view(v@) =~= bind_spec(old(self)@, id, name, new_id).1);
            v
        } else if name == self.xdg_wm_base_name {
            self.put(new_id, ServerObject::XdgWmBase);
            no_events()
        } else {
            one_error(id, ERROR_INVALID_METHOD, bind_not_found_message(id, name, new_id))
        }
    }

    /// `wl_display.sync`: fires callback `callback` with the next serial.
    pub fn sync(&mut self, callback: u32) -> (r: Vec<ServerEvent>)
        requires
            old(self).next_callback_data < u32::MAX,
        ensures
            final(self)@ == (ServerV { next_callback_data: (old(self).next_callback_data + 1) as u32, ..old(self)@ }),
            server_events_view(r@) == seq![ServerEventV::CallbackDone { sender_object_id: callback, callback_data: final(self).next_callback_data }],
    {
        self.next_callback_data = self.next_callback_data + 1;
        let mut v: Vec<ServerEvent> = Vec::new();
        v.push(ServerEvent::CallbackDone(WlCallbackDone { sender_object_id: callback, callback_data: self.next_callback_data }));
        assert(server_events_view(v@) =~= seq![ServerEventV::CallbackDone { sender_object_id: callback, callback_data: self.next_callback_data }]);
        v
    }

    /// `wl_display.get_registry`: makes `registry` a registry and announces
    /// the globals on it.
    pub fn get_registry(&mut self, registry: u32) -> (r: Vec<ServerEvent>)
        ensures
            final(self)@ == with_object(old(self)@, registry, ServerObject::WlRegistry),
            server_events_view(r@) == announced_globals(old(self)@, registry),
    {
        self.put(registry, ServerObject::WlRegistry);
        let mut v: Vec<ServerEvent> = Vec::new();
        v.push(ServerEvent::RegistryGlobal(WlRegistryGlobal {
            sender_object_id: registry,
            name: self.compositor_name,
            interface: "wl_compositor".to_owned(),
            version: COMPOSITOR_VERSION,
        }));
        v.push(ServerEvent::RegistryGlobal(WlRegistryGlobal {
            sender_object_id: registry,
            name: self.shm_name,
            interface: "wl_shm".to_owned(),
            version: SHM_VERSION,
        }));
        v.push(ServerEvent::RegistryGlobal(WlRegistryGlobal {
            sender_object_id: registry,
            name: self.xdg_wm_base_name,
            interface: "xdg_wm_base".to_owned(),
            version: XDG_WM_BASE_VERSION,
        }));
        assert(server_events_view(v@) =~= announced_globals(old(self)@, registry));
        v
    }

    /// Requests to the display.
    fn handle_display(&mut self, order: Endian, id: u32, opcode: u16, args: &Vec<u8>) -> (r: Vec<ServerEvent>)
        requires
            !(opcode == 0 && args@.len() >= 4 && old(self).next_callback_data == u32::MAX),
        ensures
            (final(self)@, server_events_view(r@)) == display_spec(order, old(self)@, id, opcode, args@),
    {
        if opcode == 0 && args.len() >= 4 {
            let callback = read_u32_at(order, args, 0);
            self.sync(callback)
        } else if opcode == 1 && args.len() >= 4 {
            let registry = read_u32_at(order, args, 0);
            self.get_registry(registry)
        } else {
            one_error(id, ERROR_INVALID_METHOD, object_opcode_not_found_message("WlDisplay", SERVER_DISPLAY_ID, opcode, args))
        }
    }

    /// Requests to a registry.
    fn handle_registry(&mut self, order: Endian, id: u32, opcode: u16, args: &Vec<u8>) -> (r: Vec<ServerEvent>)
        requires
            !(opcode == 0 && args@.len() > 8 && bind_runs_past(order, args@)),
        ensures
            (final(self)@, server_events_view(r@)) == registry_spec(order, old(self)@, id, opcode, args@),
    {
        let len = args.len();
        if opcode == 0 && len == 8 {
            let name = read_u32_at(order, args, 0);
            let new_id = read_u32_at(order, args, 4);
            return self.bind(id, name, new_id);
        }
        if opcode == 0 && len > 8 {
            let name = read_u32_at(order, args, 0);
            let name_len = read_u32_at(order, args, 4) as u64;
            let padded: u64 = (name_len + 3) / 4 * 4;
            let _version = read_u32_at(order, args, (8 + padded) as usize);
            let new_id = read_u32_at(order, args, (8 + padded + 4) as usize);
            if len as u64 == 16 + padded {
                assert((len - 4) / 4 * 4 == 8 + padded + 4);
                return self.bind(id, name, new_id);
            }
        }
        refuse("WlRegistry", id, opcode, args)
    }

    /// Requests to `xdg_wm_base`.
    fn handle_wm_base(&mut self, order: Endian, id: u32, opcode: u16, args: &Vec<u8>) -> (r: Vec<ServerEvent>)
        requires
            old(self)@.objects.contains_key(id),
            old(self)@.objects[id] == ServerObject::XdgWmBase,
        ensures
            (final(self)@, server_events_view(r@)) == wm_base_spec(order, old(self)@, id, opcode, args@),
    {
        let len = args.len();
        if opcode == 0 && len == 0 {
            if has_surfaces_made_by(&self.objects, id) {
                one_error(id, WmBaseError::DefunctSurfaces.value(), "XdgWmBase::destroy: surfaces are still alive".to_owned())
            } else {
                let removed = self.destroy_if(id, ObjectKind::XdgWmBase);
                assert(removed);
                no_events()
            }
        } else if opcode == 1 && len == 4 {
            let positioner = read_u32_at(order, args, 0);
            one_error(id, ERROR_INVALID_METHOD, create_positioner_message(id, positioner))
        } else if opcode == 2 && len == 8 {
            let xdg_surface = read_u32_at(order, args, 0);
            let wl_surface = read_u32_at(order, args, 4);
            let is_surface = match self.objects.get(&wl_surface) {
                Some(o) => *o == ServerObject::WlSurface,
                None => false,
            };
            if is_surface {
                self.put(xdg_surface, ServerObject::XdgSurface { wl_surface_id: wl_surface, wm_base_id: id });
                no_events()
            } else {
                one_error(id, ERROR_INVALID_METHOD, surface_not_found_message(id, xdg_surface, wl_surface))
            }
        } else {
            refuse("XdgWmBase", id, opcode, args)
        }
    }

    /// A request to object `id`, which is `obj`.
    fn handle_object(&mut self, order: Endian, obj: ServerObject, id: u32, opcode: u16, args: &Vec<u8>) -> (r: Vec<
        ServerEvent,
    >)
        requires
            old(self)@.objects.contains_key(id),
            old(self)@.objects[id] == obj,
            obj == ServerObject::WlRegistry ==> !(opcode == 0 && args@.len() > 8 && bind_runs_past(order, args@)),
            obj == ServerObject::WlDisplay ==> !(opcode == 0 && args@.len() >= 4 && old(self).next_callback_data
                == u32::MAX),
        ensures
            (final(self)@, server_events_view(r@)) == object_spec(order, old(self)@, obj, id, opcode, args@),
    {
        let len = args.len();
        match obj {
            ServerObject::WlDisplay => self.handle_display(order, id, opcode, args),
            ServerObject::WlRegistry => self.handle_registry(order, id, opcode, args),
            ServerObject::XdgWmBase => self.handle_wm_base(order, id, opcode, args),
            ServerObject::WlCompositor => {
                if opcode == 0 && len == 4 {
                    let surface = read_u32_at(order, args, 0);
                    self.put(surface, ServerObject::WlSurface);
                    no_events()
                } else {
                    refuse(obj.name(), id, opcode, args)
                }
            },
            ServerObject::WlSurface => {
                if opcode == 1 && len == 0 {
                    let removed = self.destroy_if(id, ObjectKind::WlSurface);
                    assert(removed);
                    no_events()
                } else if opcode == 6 && len == 0 {
                    no_events()
                } else {
                    refuse(obj.name(), id, opcode, args)
                }
            },
            ServerObject::WlShm => {
                if opcode == 0 && len == 12 {
                    let pool = read_u32_at(order, args, 0);
                    let fd = read_u32_at(order, args, 4);
                    let size = read_i32_at(order, args, 8);
                    self.put(pool, ServerObject::WlShmPool { fd, size });
                    no_events()
                } else if opcode == 1 && len == 0 {
                    let removed = self.destroy_if(id, ObjectKind::WlShm);
                    assert(removed);
                    no_events()
                } else {
                    refuse(obj.name(), id, opcode, args)
                }
            },
            ServerObject::WlShmPool { .. } => {
                if opcode == 0 && len == 24 {
                    let buffer = read_u32_at(order, args, 0);
                    let offset = read_i32_at(order, args, 4);
                    let width = read_i32_at(order, args, 8);
                    let height = read_i32_at(order, args, 12);
                    let stride = read_i32_at(order, args, 16);
                    let format = read_u32_at(order, args, 20);
                    self.put(buffer, ServerObject::WlBuffer { offset, width, height, stride, format });
                    no_events()
                } else if opcode == 1 && len == 0 {
                    let removed = self.destroy_if(id, ObjectKind::WlShmPool);
                    assert(removed);
                    no_events()
                } else {
                    refuse(obj.name(), id, opcode, args)
                }
            },
            ServerObject::XdgSurface { .. } => {
                if opcode == 0 && len == 0 {
                    let removed = self.destroy_if(id, ObjectKind::XdgSurface);
                    assert(removed);
                    no_events()
                } else if opcode == 1 && len == 4 {
                    let toplevel = read_u32_at(order, args, 0);
                    self.put(toplevel, ServerObject::XdgToplevel);
                    no_events()
                } else {
                    refuse(obj.name(), id, opcode, args)
                }
            },
            ServerObject::XdgToplevel => {
                if opcode == 0 && len == 0 {
                    let removed = self.destroy_if(id, ObjectKind::XdgToplevel);
                    assert(removed);
                    no_events()
                } else {
                    refuse(obj.name(), id, opcode, args)
                }
            },
            ServerObject::WlBuffer { .. } => {
                if opcode == 0 && len == 0 {
                    let removed = self.destroy_if(id, ObjectKind::WlBuffer);
                    assert(removed);
                    no_events()
                } else {
                    refuse(obj.name(), id, opcode, args)
                }
            },
        }
    }

    /// Whether reading this request would panic (see `server_panics`).
    pub fn would_panic(&self, order: Endian, req: &WaylandRequest) -> (r: bool)
        ensures
            r == server_panics(order, self@, req.sender_object_id, req.opcode, req.args@),
    {
        match self.objects.get(&req.sender_object_id) {
            None => false,
            Some(obj) => {
                let len = req.args.len();
                match obj {
                    ServerObject::WlRegistry => {
                        if req.opcode == 0 && len > 8 {
                            let name_len = read_u32_at(order, &req.args, 4) as u64;
                            16 + (name_len + 3) / 4 * 4 > len as u64
                        } else {
                            false
                        }
                    },
                    ServerObject::WlDisplay => req.opcode == 0 && len >= 4 && self.next_callback_data == u32::MAX,
                    _ => false,
                }
            },
        }
    }

    /// Handles one request from the client and returns the events that
    /// answer it, in order.
    pub fn handle_request(&mut self, order: Endian, req: &WaylandRequest) -> (r: Vec<ServerEvent>)
        requires
            !server_panics(order, old(self)@, req.sender_object_id, req.opcode, req.args@),
        ensures
            (final(self)@, server_events_view(r@)) == server_step(
                order,
                old(self)@,
                req.sender_object_id,
                req.opcode,
                req.args@,
            ),
    {
        let id = req.sender_object_id;
        let found = match self.objects.get(&id) {
            Some(o) => Some(*o),
            None => None,
        };
        match found {
            None => one_error(SERVER_DISPLAY_ID, ERROR_INVALID_OBJECT, object_not_found_message(id, req.opcode, &req.args)),
            Some(obj) => self.handle_object(order, obj, id, req.opcode, &req.args),
        }
    }

    /// Handles a request unless reading it would panic; returns `None`, and
    /// changes nothing, when it would.
    pub fn try_handle_request(&mut self, order: Endian, req: &WaylandRequest) -> (r: Option<Vec<ServerEvent>>)
        ensures
            server_panics(order, old(self)@, req.sender_object_id, req.opcode, req.args@) ==> r is None && final(self)@
                == old(self)@,
            !server_panics(order, old(self)@, req.sender_object_id, req.opcode, req.args@) ==> (r matches Some(v) && (
                final(self)@,
                server_events_view(v@),
            ) == server_step(order, old(self)@, req.sender_object_id, req.opcode, req.args@)),
    {
        if self.would_panic(order, req) {
            None
        } else {
            Some(self.handle_request(order, req))
        }
    }
}

/// The protocol name of the interface that an object implements.
pub open spec fn interface_of(o: ServerObject) -> Seq<char> {
    match o {
        ServerObject::WlDisplay => "wl_display"@,
        ServerObject::WlRegistry => "wl_registry"@,
        ServerObject::WlShm => "wl_shm"@,
        ServerObject::WlCompositor => "wl_compositor"@,
        ServerObject::WlSurface => "wl_surface"@,
        ServerObject::XdgWmBase => "xdg_wm_base"@,
        ServerObject::XdgSurface { .. } => "xdg_surface"@,
        ServerObject::XdgToplevel => "xdg_toplevel"@,
        ServerObject::WlBuffer { .. } => "wl_buffer"@,
        ServerObject::WlShmPool { .. } => "wl_shm_pool"@,
    }
}

/// The opcode of an object's `destroy` request, if it has one.
pub open spec fn destroy_opcode(o: ServerObject) -> Option<u16> {
    match o {
        ServerObject::WlSurface => Some(1u16),
        ServerObject::WlShm => Some(1u16),
        ServerObject::WlShmPool { .. } => Some(1u16),
        ServerObject::XdgWmBase => Some(0u16),
        ServerObject::XdgSurface { .. } => Some(0u16),
        ServerObject::XdgToplevel => Some(0u16),
        ServerObject::WlBuffer { .. } => Some(0u16),
        _ => None,
    }
}

/// Whether the three global names differ.
pub open spec fn names_distinct(s: ServerV) -> bool {
    s.compositor_name != s.shm_name && s.compositor_name != s.xdg_wm_base_name && s.shm_name != s.xdg_wm_base_name
}

/// The body of the short `wl_registry.bind`: the global's name, then the
/// new id.
pub open spec fn bind_body(order: Endian, name: u32, new_id: u32) -> Seq<u8> {
    u32_bytes(order, name) + u32_bytes(order, new_id)
}

proof fn lemma_one_word(order: Endian, a: u32)
    ensures
        u32_bytes(order, a).len() == 4,
        body_word(order, u32_bytes(order, a), 0) == a,
{
    lemma_u32_roundtrip(order, a);
    assert(u32_bytes(order, a).subrange(0, 4) =~= u32_bytes(order, a));
}

proof fn lemma_two_words(order: Endian, a: u32, b: u32)
    ensures
        bind_body(order, a, b).len() == 8,
        body_word(order, bind_body(order, a, b), 0) == a,
        body_word(order, bind_body(order, a, b), 1) == b,
{
    lemma_u32_roundtrip(order, a);
    lemma_u32_roundtrip(order, b);
    assert(bind_body(order, a, b).subrange(0, 4) =~= u32_bytes(order, a));
    assert(bind_body(order, a, b).subrange(4, 8) =~= u32_bytes(order, b));
}

/// A request to an object that does not exist changes nothing and is
/// answered with one `invalid_object` error that names the request.
pub proof fn lemma_server_unknown_object(order: Endian, s: ServerV, id: u32, opcode: u16, args: Seq<u8>)
    requires
        !s.objects.contains_key(id),
    ensures
        server_step(order, s, id, opcode, args) == (s, seq![
            server_error(SERVER_DISPLAY_ID, ERROR_INVALID_OBJECT, object_not_found_text(id, opcode, debug_bytes(args))),
        ]),
{
}

/// Every global that `get_registry` announces can be bound: binding its
/// name on the new registry puts an object of the announced interface at
/// the new id and is answered with no error.
pub proof fn lemma_server_globals_bind(order: Endian, s: ServerV, registry: u32, k: int, new_id: u32)
    requires
        s.objects.contains_key(SERVER_DISPLAY_ID),
        s.objects[SERVER_DISPLAY_ID] == ServerObject::WlDisplay,
        names_distinct(s),
        0 <= k < 3,
    ensures
        ({
            let (s1, ev1) = server_step(order, s, SERVER_DISPLAY_ID, 1, u32_bytes(order, registry));
            &&& ev1.len() == 3
            &&& ev1[k] matches ServerEventV::RegistryGlobal { name, interface, .. } && {
                let (s2, ev2) = server_step(order, s1, registry, 0, bind_body(order, name, new_id));
                &&& s2.objects.contains_key(new_id)
                &&& interface_of(s2.objects[new_id]) == interface
                &&& forall|j: int| 0 <= j < ev2.len() ==> !(#[trigger] ev2[j] is DisplayError)
            }
        }),
{
    lemma_one_word(order, registry);
    let (s1, ev1) = server_step(order, s, SERVER_DISPLAY_ID, 1, u32_bytes(order, registry));
    assert(ev1 == announced_globals(s, registry));
    assert(s1.objects[registry] == ServerObject::WlRegistry);
    let name = if k == 0 { s.compositor_name } else if k == 1 { s.shm_name } else { s.xdg_wm_base_name };
    lemma_two_words(order, name, new_id);
}

/// Each `wl_display.sync` fires its callback with the serial after the one
/// before: two syncs in a row carry consecutive serials.
pub proof fn lemma_sync_serials(order: Endian, s: ServerV, display: u32, first: u32, second: u32)
    requires
        s.objects.contains_key(display),
        s.objects[display] == ServerObject::WlDisplay,
        s.next_callback_data + 2 <= u32::MAX,
    ensures
        ({
            let (s1, ev1) = server_step(order, s, display, 0, u32_bytes(order, first));
            let (s2, ev2) = server_step(order, s1, display, 0, u32_bytes(order, second));
            &&& ev1 == seq![ServerEventV::CallbackDone { sender_object_id: first, callback_data: (s.next_callback_data + 1) as u32 }]
            &&& ev2 == seq![ServerEventV::CallbackDone { sender_object_id: second, callback_data: (s1.next_callback_data + 1) as u32 }]
            &&& s1.next_callback_data == s.next_callback_data + 1
            &&& s2.objects == s.objects
        }),
{
    lemma_one_word(order, first);
    lemma_one_word(order, second);
}

/// A destroyed object is gone: its `destroy` request removes it and nothing
/// else, and any later request to its id is an `invalid_object` error. (An
/// `xdg_wm_base` that made a live `xdg_surface` refuses to go: see
/// `lemma_wm_base_defunct_surfaces`.)
pub proof fn lemma_destroyed_object_gone(order: Endian, s: ServerV, id: u32, opcode: u16, args: Seq<u8>)
    requires
        s.objects.contains_key(id),
        destroy_opcode(s.objects[id]) is Some,
        !(s.objects[id] == ServerObject::XdgWmBase && has_surfaces_of(s.objects, id)),
    ensures
        ({
            let (s1, ev1) = server_step(order, s, id, destroy_opcode(s.objects[id])->0, Seq::empty());
            &&& ev1.len() == 0
            &&& s1.objects == s.objects.remove(id)
            &&& server_step(order, s1, id, opcode, args) == (s1, seq![
                server_error(SERVER_DISPLAY_ID, ERROR_INVALID_OBJECT, object_not_found_text(id, opcode, debug_bytes(args))),
            ])
        }),
{
}

/// A request changes no object but the one it is sent to and those whose
/// ids its body carries.
pub proof fn lemma_server_other_objects_untouched(order: Endian, s: ServerV, id: u32, opcode: u16, args: Seq<u8>, k: u32)
    requires
        k != id,
        !carries_word(order, args, k),
    ensures
        ({
            let s2 = server_step(order, s, id, opcode, args).0;
            &&& s2.objects.contains_key(k) == s.objects.contains_key(k)
            &&& s.objects.contains_key(k) ==> s2.objects[k] == s.objects[k]
        }),
{
    if args.len() >= 4 {
        assert(body_word(order, args, 0) != k);
    }
    if args.len() >= 8 {
        assert(body_word(order, args, 1) != k);
    }
    if args.len() > 8 && args.len() == 16 + pad4(body_word(order, args, 1) as int) {
        let j = (args.len() - 4) / 4;
        assert(4 * j + 4 == args.len());
        assert(body_word(order, args, j) != k);
    }
}

/// Destroying an `xdg_wm_base` while an `xdg_surface` that it made is alive
/// is answered with the `defunct_surfaces` error about the `xdg_wm_base`,
/// and changes nothing.
pub proof fn lemma_wm_base_defunct_surfaces(order: Endian, s: ServerV, id: u32, surface: u32)
    requires
        s.objects.contains_key(id),
        s.objects[id] == ServerObject::XdgWmBase,
        s.objects.contains_key(surface),
        s.objects[surface] matches ServerObject::XdgSurface { wm_base_id, .. } && wm_base_id == id,
    ensures
        server_step(order, s, id, 0, Seq::empty()) == (s, seq![
            server_error(id, WmBaseError::DefunctSurfaces.code(), defunct_surfaces_text()),
        ]),
{
    assert(has_surfaces_of(s.objects, id));
}


/// `wl_shm_pool.create_buffer`: the body's words are the new id, the offset
/// of the buffer in the pool, its width, height and stride, and its format;
/// the new id then holds a `wl_buffer` with exactly those, nothing else
/// changes and nothing answers.
pub proof fn lemma_server_create_buffer(
    order: Endian,
    s: ServerV,
    pool: u32,
    new_id: u32,
    offset: i32,
    width: i32,
    height: i32,
    stride: i32,
    format: u32,
)
    requires
        s.objects.contains_key(pool),
        s.objects[pool] is WlShmPool,
    ensures
        server_step(
            order,
            s,
            pool,
            0,
            u32_bytes(order, new_id) + i32_bytes(order, offset) + i32_bytes(order, width) + i32_bytes(order, height)
                + i32_bytes(order, stride) + u32_bytes(order, format),
        ) == (
            ServerV {
                objects: s.objects.insert(new_id, ServerObject::WlBuffer { offset, width, height, stride, format }),
                ..s
            },
            Seq::<ServerEventV>::empty(),
        ),
{
    let args = u32_bytes(order, new_id) + i32_bytes(order, offset) + i32_bytes(order, width) + i32_bytes(order, height)
        + i32_bytes(order, stride) + u32_bytes(order, format);
    lemma_u32_roundtrip(order, new_id);
    lemma_i32_roundtrip(order, offset);
    lemma_i32_roundtrip(order, width);
    lemma_i32_roundtrip(order, height);
    lemma_i32_roundtrip(order, stride);
    lemma_u32_roundtrip(order, format);
    assert(args.subrange(0, 4) =~= u32_bytes(order, new_id));
    assert(args.subrange(4, 8) =~= i32_bytes(order, offset));
    assert(args.subrange(8, 12) =~= i32_bytes(order, width));
    assert(args.subrange(12, 16) =~= i32_bytes(order, height));
    assert(args.subrange(16, 20) =~= i32_bytes(order, stride));
    assert(args.subrange(20, 24) =~= u32_bytes(order, format));
}

/// `wl_shm.create_pool`: the body's words are the new id, the pool's file
/// descriptor and its size; the new id then holds a `wl_shm_pool` with
/// exactly those, nothing else changes and nothing answers.
pub proof fn lemma_server_create_pool(order: Endian, s: ServerV, shm: u32, new_id: u32, fd: u32, size: i32)
    requires
        s.objects.contains_key(shm),
        s.objects[shm] == ServerObject::WlShm,
    ensures
        server_step(order, s, shm, 0, u32_bytes(order, new_id) + u32_bytes(order, fd) + i32_bytes(order, size)) == (
            ServerV { objects: s.objects.insert(new_id, ServerObject::WlShmPool { fd, size }), ..s },
            Seq::<ServerEventV>::empty(),
        ),
{
    let args = u32_bytes(order, new_id) + u32_bytes(order, fd) + i32_bytes(order, size);
    lemma_u32_roundtrip(order, new_id);
    lemma_u32_roundtrip(order, fd);
    lemma_i32_roundtrip(order, size);
    assert(args.subrange(0, 4) =~= u32_bytes(order, new_id));
    assert(args.subrange(4, 8) =~= u32_bytes(order, fd));
    assert(args.subrange(8, 12) =~= i32_bytes(order, size));
}

/// `wl_compositor.create_surface`: the new id then holds a `wl_surface`,
/// nothing else changes and nothing answers.
pub proof fn lemma_server_create_surface(order: Endian, s: ServerV, compositor: u32, new_id: u32)
    requires
        s.objects.contains_key(compositor),
        s.objects[compositor] == ServerObject::WlCompositor,
    ensures
        server_step(order, s, compositor, 0, u32_bytes(order, new_id)) == (
            ServerV { objects: s.objects.insert(new_id, ServerObject::WlSurface), ..s },
            Seq::<ServerEventV>::empty(),
        ),
{
    lemma_one_word(order, new_id);
}

/// `xdg_wm_base.get_xdg_surface` for an existing `wl_surface`: the new id
/// then holds an `xdg_surface` that records the `wl_surface` and the
/// `xdg_wm_base` that made it, nothing else changes and nothing answers.
pub proof fn lemma_server_get_xdg_surface(order: Endian, s: ServerV, wm_base: u32, new_id: u32, surface: u32)
    requires
        s.objects.contains_key(wm_base),
        s.objects[wm_base] == ServerObject::XdgWmBase,
        s.objects.contains_key(surface),
        s.objects[surface] == ServerObject::WlSurface,
    ensures
        server_step(order, s, wm_base, 2, u32_bytes(order, new_id) + u32_bytes(order, surface)) == (
            ServerV {
                objects: s.objects.insert(new_id, ServerObject::XdgSurface { wl_surface_id: surface, wm_base_id: wm_base }),
                ..s
            },
            Seq::<ServerEventV>::empty(),
        ),
{
    lemma_two_words(order, new_id, surface);
}

/// `xdg_surface.get_toplevel`: the new id then holds an `xdg_toplevel`,
/// nothing else changes and nothing answers.
pub proof fn lemma_server_get_toplevel(order: Endian, s: ServerV, xdg_surface: u32, new_id: u32)
    requires
        s.objects.contains_key(xdg_surface),
        s.objects[xdg_surface] is XdgSurface,
    ensures
        server_step(order, s, xdg_surface, 1, u32_bytes(order, new_id)) == (
            ServerV { objects: s.objects.insert(new_id, ServerObject::XdgToplevel), ..s },
            Seq::<ServerEventV>::empty(),
        ),
{
    lemma_one_word(order, new_id);
}

/// The bytes of a `wl_display.error` event: its header (the display, then
/// its size and opcode 0), then the object, the code and the message, whose
/// length field counts the message, its NUL and the padding after it.
pub proof fn lemma_display_error_bytes(order: Endian, e: WlDisplayError)
    ensures
        e.wire(order) == u32_bytes(order, SERVER_DISPLAY_ID) + u32_bytes(order, size_and_opcode((16 + (4 + padded_len(encode_utf8(e.message@).len() as int))) as int, 0)) + u32_bytes(order, e.object_id) + u32_bytes(order, e.code) + blob_wire(order, padded_len(encode_utf8(e.message@).len() as int) as u32, encode_utf8(e.message@)),
{
    lemma_message_bytes(order, SERVER_DISPLAY_ID, 0, e.args());
    reveal_with_fuel(args_wire, 4);
    reveal_with_fuel(args_size, 4);
    assert(e.args() =~= seq![ArgV::Uint(e.object_id), ArgV::Uint(e.code), ArgV::StrPadded(e.message@)]);
    assert(e.args().drop_last() =~= seq![ArgV::Uint(e.object_id), ArgV::Uint(e.code)]);
    assert(e.args().drop_last().drop_last() =~= seq![ArgV::Uint(e.object_id)]);
    assert(e.args().drop_last().drop_last().drop_last() =~= Seq::<ArgV>::empty());
    assert(e.wire(order) =~= u32_bytes(order, SERVER_DISPLAY_ID) + u32_bytes(order, size_and_opcode((16 + (4 + padded_len(encode_utf8(e.message@).len() as int))) as int, 0)) + u32_bytes(order, e.object_id) + u32_bytes(order, e.code) + blob_wire(order, padded_len(encode_utf8(e.message@).len() as int) as u32, encode_utf8(e.message@)));
}

/// The bytes of a `wl_shm.format` event: its header (the sender, size 12,
/// opcode 0), then the format.
pub proof fn lemma_shm_format_bytes(order: Endian, e: WlShmFormat)
    ensures
        e.wire(order) == u32_bytes(order, e.sender_object_id) + u32_bytes(order, size_and_opcode(12, 0)) + u32_bytes(order, e.format),
{
    lemma_message_bytes(order, e.sender_object_id, 0, e.args());
    reveal_with_fuel(args_wire, 2);
    reveal_with_fuel(args_size, 2);
    assert(e.args() =~= seq![ArgV::Uint(e.format)]);
    assert(e.args().drop_last() =~= Seq::<ArgV>::empty());
    assert(e.wire(order) =~= u32_bytes(order, e.sender_object_id) + u32_bytes(order, size_and_opcode(12, 0)) + u32_bytes(order, e.format));
}

/// The bytes of a `wl_registry.global` event: its header (the sender, then
/// its size and opcode 0), then the name, the interface (whose length field
/// counts the name, its NUL and the padding after it) and the version.
pub proof fn lemma_registry_global_bytes(order: Endian, e: WlRegistryGlobal)
    ensures
        e.wire(order) == u32_bytes(order, e.sender_object_id) + u32_bytes(order, size_and_opcode((16 + (4 + padded_len(encode_utf8(e.interface@).len() as int))) as int, 0)) + u32_bytes(order, e.name) + blob_wire(order, padded_len(encode_utf8(e.interface@).len() as int) as u32, encode_utf8(e.interface@)) + u32_bytes(order, e.version),
{
    lemma_message_bytes(order, e.sender_object_id, 0, e.args());
    reveal_with_fuel(args_wire, 4);
    reveal_with_fuel(args_size, 4);
    assert(e.args() =~= seq![ArgV::Uint(e.name), ArgV::StrPadded(e.interface@), ArgV::Uint(e.version)]);
    assert(e.args().drop_last() =~= seq![ArgV::Uint(e.name), ArgV::StrPadded(e.interface@)]);
    assert(e.args().drop_last().drop_last() =~= seq![ArgV::Uint(e.name)]);
    assert(e.args().drop_last().drop_last().drop_last() =~= Seq::<ArgV>::empty());
    assert(e.wire(order) =~= u32_bytes(order, e.sender_object_id) + u32_bytes(order, size_and_opcode((16 + (4 + padded_len(encode_utf8(e.interface@).len() as int))) as int, 0)) + u32_bytes(order, e.name) + blob_wire(order, padded_len(encode_utf8(e.interface@).len() as int) as u32, encode_utf8(e.interface@)) + u32_bytes(order, e.version));
}

/// The bytes of a `wl_callback.done` event: its header (the sender, size
/// 12, opcode 0), then the callback data.
pub proof fn lemma_callback_done_bytes(order: Endian, e: WlCallbackDone)
    ensures
        e.wire(order) == u32_bytes(order, e.sender_object_id) + u32_bytes(order, size_and_opcode(12, 0)) + u32_bytes(order, e.callback_data),
{
    lemma_message_bytes(order, e.sender_object_id, 0, e.args());
    reveal_with_fuel(args_wire, 2);
    reveal_with_fuel(args_size, 2);
    assert(e.args() =~= seq![ArgV::Uint(e.callback_data)]);
    assert(e.args().drop_last() =~= Seq::<ArgV>::empty());
    assert(e.wire(order) =~= u32_bytes(order, e.sender_object_id) + u32_bytes(order, size_and_opcode(12, 0)) + u32_bytes(order, e.callback_data));
}

} // verus!
