//! The interfaces that the proxy knows, and for each of them its requests:
//! the argument types, the method name and how the proxy handles them.

use crate::message::ArgKind;
use vstd::prelude::*;

verus! {

/// An interface of the protocol.
#[derive(Clone, Copy, Debug, PartialEq, Eq, Structural)]
pub enum Interface {
    WlDisplay,
    WlRegistry,
    WlCallback,
    WlCompositor,
    WlShmPool,
    WlShm,
    WlBuffer,
    WlDataOffer,
    WlDataSource,
    WlDataDevice,
    WlDataDeviceManager,
    WlShell,
    WlShellSurface,
    WlSurface,
    WlSeat,
    WlPointer,
    WlKeyboard,
    WlTouch,
    WlOutput,
    WlRegion,
    WlSubcompositor,
    WlSubsurface,
    XdgWmBase,
    XdgPositioner,
    XdgSurface,
    XdgToplevel,
    XdgPopup,
}

/// How the proxy handles a request whose arguments decoded.
#[derive(Clone, Copy, Debug, PartialEq, Eq, Structural)]
pub enum Handler {
    /// Pass the request on to the compositor.
    Relay,
    /// Accept the request and do nothing more.
    Keep,
    /// End the session.
    Stop,
    /// Answer with an `invalid_method` error naming the method.
    Unimplemented,
    /// Answer with an `invalid_method` error naming the object and the method.
    UnimplementedAt,
    /// `wl_display.sync`
    Sync,
    /// `wl_display.get_registry`
    GetRegistry,
    /// `wl_registry.bind`
    Bind,
    /// `wl_compositor.create_surface`
    CreateSurface,
    /// `wl_compositor.create_region`
    CreateRegion,
    /// A destructor: the object goes, and the request is not relayed.
    Destroy,
    /// `xdg_surface.set_window_geometry`: refused unless the size is positive.
    SetWindowGeometry,
    /// `xdg_positioner.set_size`: a size that is not positive is invalid input.
    SetSize,
    /// `xdg_wm_base.destroy`: refused while an `xdg_surface` is alive.
    DestroyWmBase,
}

impl Interface {
    /// The protocol name of the interface.
    pub open spec fn text(self) -> Seq<char> {
        match self {
            Interface::WlDisplay => "wl_display"@,
            Interface::WlRegistry => "wl_registry"@,
            Interface::WlCallback => "wl_callback"@,
            Interface::WlCompositor => "wl_compositor"@,
            Interface::WlShmPool => "wl_shm_pool"@,
            Interface::WlShm => "wl_shm"@,
            Interface::WlBuffer => "wl_buffer"@,
            Interface::WlDataOffer => "wl_data_offer"@,
            Interface::WlDataSource => "wl_data_source"@,
            Interface::WlDataDevice => "wl_data_device"@,
            Interface::WlDataDeviceManager => "wl_data_device_manager"@,
            Interface::WlShell => "wl_shell"@,
            Interface::WlShellSurface => "wl_shell_surface"@,
            Interface::WlSurface => "wl_surface"@,
            Interface::WlSeat => "wl_seat"@,
            Interface::WlPointer => "wl_pointer"@,
            Interface::WlKeyboard => "wl_keyboard"@,
            Interface::WlTouch => "wl_touch"@,
            Interface::WlOutput => "wl_output"@,
            Interface::WlRegion => "wl_region"@,
            Interface::WlSubcompositor => "wl_subcompositor"@,
            Interface::WlSubsurface => "wl_subsurface"@,
            Interface::XdgWmBase => "xdg_wm_base"@,
            Interface::XdgPositioner => "xdg_positioner"@,
            Interface::XdgSurface => "xdg_surface"@,
            Interface::XdgToplevel => "xdg_toplevel"@,
            Interface::XdgPopup => "xdg_popup"@,
        }
    }

    pub fn name(&self) -> (r: &'static str)
        ensures
            r@ == self.text(),
    {
        match self {
            Interface::WlDisplay => "wl_display",
            Interface::WlRegistry => "wl_registry",
            Interface::WlCallback => "wl_callback",
            Interface::WlCompositor => "wl_compositor",
            Interface::WlShmPool => "wl_shm_pool",
            Interface::WlShm => "wl_shm",
            Interface::WlBuffer => "wl_buffer",
            Interface::WlDataOffer => "wl_data_offer",
            Interface::WlDataSource => "wl_data_source",
            Interface::WlDataDevice => "wl_data_device",
            Interface::WlDataDeviceManager => "wl_data_device_manager",
            Interface::WlShell => "wl_shell",
            Interface::WlShellSurface => "wl_shell_surface",
            Interface::WlSurface => "wl_surface",
            Interface::WlSeat => "wl_seat",
            Interface::WlPointer => "wl_pointer",
            Interface::WlKeyboard => "wl_keyboard",
            Interface::WlTouch => "wl_touch",
            Interface::WlOutput => "wl_output",
            Interface::WlRegion => "wl_region",
            Interface::WlSubcompositor => "wl_subcompositor",
            Interface::WlSubsurface => "wl_subsurface",
            Interface::XdgWmBase => "xdg_wm_base",
            Interface::XdgPositioner => "xdg_positioner",
            Interface::XdgSurface => "xdg_surface",
            Interface::XdgToplevel => "xdg_toplevel",
            Interface::XdgPopup => "xdg_popup",
        }
    }

    /// Whether a request with an opcode that the interface does not have
    /// is ignored (rather than answered with an error), and whether the
    /// errors that it answers name the object.
    pub open spec fn silent(self) -> bool {
        self == Interface::WlDataSource || self == Interface::WlDataDeviceManager || self == Interface::WlShellSurface || self == Interface::XdgToplevel
    }

    pub fn is_silent(&self) -> (r: bool)
        ensures
            r == self.silent(),
    {
        match self {
            Interface::WlDataSource => true,
            Interface::WlDataDeviceManager => true,
            Interface::WlShellSurface => true,
            Interface::XdgToplevel => true,
            _ => false,
        }
    }

    /// The argument types of a request, if the interface has the opcode.
    pub open spec fn kinds(self, opcode: u16) -> Option<Seq<ArgKind>> {
        match self {
            Interface::WlDisplay => {
                if opcode == 0 {
                    Some(seq![ArgKind::NewId])
                } else if opcode == 1 {
                    Some(seq![ArgKind::NewId])
                } else {
                    None
                }
            },
            Interface::WlRegistry => {
                if opcode == 0 {
                    Some(seq![ArgKind::Uint, ArgKind::NewId])
                } else {
                    None
                }
            },
            Interface::WlCallback => None,
            Interface::WlCompositor => {
                if opcode == 0 {
                    Some(seq![ArgKind::NewId])
                } else if opcode == 1 {
                    Some(seq![ArgKind::NewId])
                } else {
                    None
                }
            },
            Interface::WlShmPool => {
                if opcode == 0 {
                    Some(seq![ArgKind::NewId, ArgKind::Int, ArgKind::Int, ArgKind::Int, ArgKind::Int, ArgKind::Uint])
                } else if opcode == 1 {
                    Some(seq![])
                } else if opcode == 2 {
                    Some(seq![ArgKind::Int])
                } else {
                    None
                }
            },
            Interface::WlShm => {
                if opcode == 0 {
                    Some(seq![ArgKind::NewId, ArgKind::Fd, ArgKind::Int])
                } else {
                    None
                }
            },
            Interface::WlBuffer => {
                if opcode == 0 {
                    Some(seq![])
                } else {
                    None
                }
            },
            Interface::WlDataOffer => {
                if opcode == 0 {
                    Some(seq![ArgKind::Uint, ArgKind::Str])
                } else if opcode == 1 {
                    Some(seq![ArgKind::Str, ArgKind::Fd])
                } else if opcode == 2 {
                    Some(seq![])
                } else if opcode == 3 {
                    Some(seq![])
                } else if opcode == 4 {
                    Some(seq![ArgKind::Uint, ArgKind::Uint])
                } else {
                    None
                }
            },
            Interface::WlDataSource => {
                if opcode == 0 {
                    Some(seq![ArgKind::Str])
                } else if opcode == 1 {
                    Some(seq![])
                } else if opcode == 2 {
                    Some(seq![ArgKind::Uint])
                } else {
                    None
                }
            },
            Interface::WlDataDevice => {
                if opcode == 0 {
                    Some(seq![ArgKind::Object, ArgKind::Object, ArgKind::Object, ArgKind::Uint])
                } else if opcode == 1 {
                    Some(seq![ArgKind::Object, ArgKind::Uint])
                } else if opcode == 2 {
                    Some(seq![])
                } else {
                    None
                }
            },
            Interface::WlDataDeviceManager => {
                if opcode == 0 {
                    Some(seq![ArgKind::NewId])
                } else if opcode == 1 {
                    Some(seq![ArgKind::NewId, ArgKind::Object])
                } else {
                    None
                }
            },
            Interface::WlShell => {
                if opcode == 0 {
                    Some(seq![ArgKind::NewId, ArgKind::Object])
                } else {
                    None
                }
            },
            Interface::WlShellSurface => {
                if opcode == 0 {
                    Some(seq![ArgKind::Uint])
                } else if opcode == 1 {
                    Some(seq![ArgKind::Object, ArgKind::Uint])
                } else if opcode == 2 {
                    Some(seq![ArgKind::Object, ArgKind::Uint, ArgKind::Uint])
                } else if opcode == 3 {
                    Some(seq![])
                } else if opcode == 4 {
                    Some(seq![ArgKind::Object, ArgKind::Int, ArgKind::Int, ArgKind::Uint])
                } else if opcode == 5 {
                    Some(seq![ArgKind::Uint, ArgKind::Uint, ArgKind::Object])
                } else if opcode == 6 {
                    Some(seq![ArgKind::Object, ArgKind::Uint, ArgKind::Object, ArgKind::Int, ArgKind::Int, ArgKind::Uint])
                } else if opcode == 7 {
                    Some(seq![ArgKind::Object])
                } else if opcode == 8 {
                    Some(seq![ArgKind::Str])
                } else if opcode == 9 {
                    Some(seq![ArgKind::Str])
                } else {
                    None
                }
            },
            Interface::WlSurface => {
                if opcode == 0 {
                    Some(seq![])
                } else if opcode == 1 {
                    Some(seq![ArgKind::Object, ArgKind::Int, ArgKind::Int])
                } else if opcode == 2 {
                    Some(seq![ArgKind::Int, ArgKind::Int, ArgKind::Int, ArgKind::Int])
                } else if opcode == 3 {
                    Some(seq![ArgKind::NewId])
                } else if opcode == 4 {
                    Some(seq![ArgKind::Object])
                } else if opcode == 5 {
                    Some(seq![ArgKind::Object])
                } else if opcode == 6 {
                    Some(seq![])
                } else if opcode == 7 {
                    Some(seq![ArgKind::Int])
                } else if opcode == 8 {
                    Some(seq![ArgKind::Int])
                } else if opcode == 9 {
                    Some(seq![ArgKind::Int, ArgKind::Int, ArgKind::Int, ArgKind::Int])
                } else {
                    None
                }
            },
            Interface::WlSeat => {
                if opcode == 0 {
                    Some(seq![ArgKind::NewId])
                } else if opcode == 1 {
                    Some(seq![ArgKind::NewId])
                } else if opcode == 2 {
                    Some(seq![ArgKind::NewId])
                } else if opcode == 3 {
                    Some(seq![])
                } else {
                    None
                }
            },
            Interface::WlPointer => {
                if opcode == 0 {
                    Some(seq![ArgKind::Uint, ArgKind::Object, ArgKind::Int, ArgKind::Int])
                } else if opcode == 1 {
                    Some(seq![])
                } else {
                    None
                }
            },
            Interface::WlKeyboard => {
                if opcode == 0 {
                    Some(seq![])
                } else {
                    None
                }
            },
            Interface::WlTouch => {
                if opcode == 0 {
                    Some(seq![])
                } else {
                    None
                }
            },
            Interface::WlOutput => {
                if opcode == 0 {
                    Some(seq![])
                } else {
                    None
                }
            },
            Interface::WlRegion => {
                if opcode == 0 {
                    Some(seq![])
                } else if opcode == 1 {
                    Some(seq![ArgKind::Int, ArgKind::Int, ArgKind::Int, ArgKind::Int])
                } else if opcode == 2 {
                    Some(seq![ArgKind::Int, ArgKind::Int, ArgKind::Int, ArgKind::Int])
                } else {
                    None
                }
            },
            Interface::WlSubcompositor => {
                if opcode == 0 {
                    Some(seq![])
                } else if opcode == 1 {
                    Some(seq![ArgKind::NewId, ArgKind::Object, ArgKind::Object])
                } else {
                    None
                }
            },
            Interface::WlSubsurface => {
                if opcode == 0 {
                    Some(seq![])
                } else if opcode == 1 {
                    Some(seq![ArgKind::Int, ArgKind::Int])
                } else if opcode == 2 {
                    Some(seq![ArgKind::Object])
                } else if opcode == 3 {
                    Some(seq![ArgKind::Object])
                } else if opcode == 4 {
                    Some(seq![])
                } else if opcode == 5 {
                    Some(seq![])
                } else {
                    None
                }
            },
            Interface::XdgWmBase => {
                if opcode == 0 {
                    Some(seq![])
                } else if opcode == 1 {
                    Some(seq![ArgKind::NewId])
                } else if opcode == 2 {
                    Some(seq![ArgKind::NewId, ArgKind::Object])
                } else if opcode == 3 {
                    Some(seq![ArgKind::Uint])
                } else {
                    None
                }
            },
            Interface::XdgPositioner => {
                if opcode == 0 {
                    Some(seq![])
                } else if opcode == 1 {
                    Some(seq![ArgKind::Int, ArgKind::Int])
                } else if opcode == 2 {
                    Some(seq![ArgKind::Int, ArgKind::Int, ArgKind::Int, ArgKind::Int])
                } else if opcode == 3 {
                    Some(seq![ArgKind::Uint])
                } else if opcode == 4 {
                    Some(seq![ArgKind::Uint])
                } else if opcode == 5 {
                    Some(seq![ArgKind::Uint])
                } else if opcode == 6 {
                    Some(seq![ArgKind::Int, ArgKind::Int])
                } else {
                    None
                }
            },
            Interface::XdgSurface => {
                if opcode == 0 {
                    Some(seq![])
                } else if opcode == 1 {
                    Some(seq![ArgKind::NewId])
                } else if opcode == 2 {
                    Some(seq![ArgKind::NewId, ArgKind::Object, ArgKind::Object])
                } else if opcode == 3 {
                    Some(seq![ArgKind::Int, ArgKind::Int, ArgKind::Int, ArgKind::Int])
                } else if opcode == 4 {
                    Some(seq![ArgKind::Uint])
                } else {
                    None
                }
            },
            Interface::XdgToplevel => {
                if opcode == 0 {
                    Some(seq![])
                } else if opcode == 1 {
                    Some(seq![ArgKind::Object])
                } else if opcode == 2 {
                    Some(seq![ArgKind::Str])
                } else if opcode == 3 {
                    Some(seq![ArgKind::Str])
                } else if opcode == 4 {
                    Some(seq![ArgKind::Object, ArgKind::Uint, ArgKind::Int, ArgKind::Int])
                } else if opcode == 5 {
                    Some(seq![ArgKind::Object, ArgKind::Uint])
                } else if opcode == 6 {
                    Some(seq![ArgKind::Object, ArgKind::Uint, ArgKind::Uint])
                } else if opcode == 7 {
                    Some(seq![ArgKind::Int, ArgKind::Int])
                } else if opcode == 8 {
                    Some(seq![ArgKind::Int, ArgKind::Int])
                } else if opcode == 9 {
                    Some(seq![])
                } else if opcode == 10 {
                    Some(seq![])
                } else if opcode == 11 {
                    Some(seq![ArgKind::Object])
                } else if opcode == 12 {
                    Some(seq![])
                } else if opcode == 13 {
                    Some(seq![])
                } else {
                    None
                }
            },
            Interface::XdgPopup => {
                if opcode == 0 {
                    Some(seq![])
                } else if opcode == 1 {
                    Some(seq![ArgKind::Object, ArgKind::Uint])
                } else {
                    None
                }
            },
        }
    }

    pub fn request_kinds(&self, opcode: u16) -> (r: Option<Vec<ArgKind>>)
        ensures
            r matches Some(v) ==> self.kinds(opcode) == Some(v@),
            r is None ==> self.kinds(opcode) is None,
    {
        match self {
            Interface::WlDisplay => wl_display_kinds(opcode),
            Interface::WlRegistry => wl_registry_kinds(opcode),
            Interface::WlCallback => None,
            Interface::WlCompositor => wl_compositor_kinds(opcode),
            Interface::WlShmPool => wl_shm_pool_kinds(opcode),
            Interface::WlShm => wl_shm_kinds(opcode),
            Interface::WlBuffer => wl_buffer_kinds(opcode),
            Interface::WlDataOffer => wl_data_offer_kinds(opcode),
            Interface::WlDataSource => wl_data_source_kinds(opcode),
            Interface::WlDataDevice => wl_data_device_kinds(opcode),
            Interface::WlDataDeviceManager => wl_data_device_manager_kinds(opcode),
            Interface::WlShell => wl_shell_kinds(opcode),
            Interface::WlShellSurface => wl_shell_surface_kinds(opcode),
            Interface::WlSurface => wl_surface_kinds(opcode),
            Interface::WlSeat => wl_seat_kinds(opcode),
            Interface::WlPointer => wl_pointer_kinds(opcode),
            Interface::WlKeyboard => wl_keyboard_kinds(opcode),
            Interface::WlTouch => wl_touch_kinds(opcode),
            Interface::WlOutput => wl_output_kinds(opcode),
            Interface::WlRegion => wl_region_kinds(opcode),
            Interface::WlSubcompositor => wl_subcompositor_kinds(opcode),
            Interface::WlSubsurface => wl_subsurface_kinds(opcode),
            Interface::XdgWmBase => xdg_wm_base_kinds(opcode),
            Interface::XdgPositioner => xdg_positioner_kinds(opcode),
            Interface::XdgSurface => xdg_surface_kinds(opcode),
            Interface::XdgToplevel => xdg_toplevel_kinds(opcode),
            Interface::XdgPopup => xdg_popup_kinds(opcode),
        }
    }
}

fn wl_display_kinds(opcode: u16) -> (r: Option<Vec<ArgKind>>)
    ensures
        r matches Some(v) ==> Interface::WlDisplay.kinds(opcode) == Some(v@),
        r is None ==> Interface::WlDisplay.kinds(opcode) is None,
{
    match opcode {
        0 => {
            let mut k: Vec<ArgKind> = Vec::new();
            k.push(ArgKind::NewId);
            assert(k@ =~= seq![ArgKind::NewId]);
            Some(k)
        },
        1 => {
            let mut k: Vec<ArgKind> = Vec::new();
            k.push(ArgKind::NewId);
            assert(k@ =~= seq![ArgKind::NewId]);
            Some(k)
        },
        _ => None,
    }
}

fn wl_registry_kinds(opcode: u16) -> (r: Option<Vec<ArgKind>>)
    ensures
        r matches Some(v) ==> Interface::WlRegistry.kinds(opcode) == Some(v@),
        r is None ==> Interface::WlRegistry.kinds(opcode) is None,
{
    match opcode {
        0 => {
            let mut k: Vec<ArgKind> = Vec::new();
            k.push(ArgKind::Uint);
            k.push(ArgKind::NewId);
            assert(k@ =~= seq![ArgKind::Uint, ArgKind::NewId]);
            Some(k)
        },
        _ => None,
    }
}

fn wl_compositor_kinds(opcode: u16) -> (r: Option<Vec<ArgKind>>)
    ensures
        r matches Some(v) ==> Interface::WlCompositor.kinds(opcode) == Some(v@),
        r is None ==> Interface::WlCompositor.kinds(opcode) is None,
{
    match opcode {
        0 => {
            let mut k: Vec<ArgKind> = Vec::new();
            k.push(ArgKind::NewId);
            assert(k@ =~= seq![ArgKind::NewId]);
            Some(k)
        },
        1 => {
            let mut k: Vec<ArgKind> = Vec::new();
            k.push(ArgKind::NewId);
            assert(k@ =~= seq![ArgKind::NewId]);
            Some(k)
        },
        _ => None,
    }
}

fn wl_shm_pool_kinds(opcode: u16) -> (r: Option<Vec<ArgKind>>)
    ensures
        r matches Some(v) ==> Interface::WlShmPool.kinds(opcode) == Some(v@),
        r is None ==> Interface::WlShmPool.kinds(opcode) is None,
{
    match opcode {
        0 => {
            let mut k: Vec<ArgKind> = Vec::new();
            k.push(ArgKind::NewId);
            k.push(ArgKind::Int);
            k.push(ArgKind::Int);
            k.push(ArgKind::Int);
            k.push(ArgKind::Int);
            k.push(ArgKind::Uint);
            assert(k@ =~= seq![ArgKind::NewId, ArgKind::Int, ArgKind::Int, ArgKind::Int, ArgKind::Int, ArgKind::Uint]);
            Some(k)
        },
        1 => {
            let mut k: Vec<ArgKind> = Vec::new();
            assert(k@ =~= seq![]);
            Some(k)
        },
        2 => {
            let mut k: Vec<ArgKind> = Vec::new();
            k.push(ArgKind::Int);
            assert(k@ =~= seq![ArgKind::Int]);
            Some(k)
        },
        _ => None,
    }
}

fn wl_shm_kinds(opcode: u16) -> (r: Option<Vec<ArgKind>>)
    ensures
        r matches Some(v) ==> Interface::WlShm.kinds(opcode) == Some(v@),
        r is None ==> Interface::WlShm.kinds(opcode) is None,
{
    match opcode {
        0 => {
            let mut k: Vec<ArgKind> = Vec::new();
            k.push(ArgKind::NewId);
            k.push(ArgKind::Fd);
            k.push(ArgKind::Int);
            assert(k@ =~= seq![ArgKind::NewId, ArgKind::Fd, ArgKind::Int]);
            Some(k)
        },
        _ => None,
    }
}

fn wl_buffer_kinds(opcode: u16) -> (r: Option<Vec<ArgKind>>)
    ensures
        r matches Some(v) ==> Interface::WlBuffer.kinds(opcode) == Some(v@),
        r is None ==> Interface::WlBuffer.kinds(opcode) is None,
{
    match opcode {
        0 => {
            let mut k: Vec<ArgKind> = Vec::new();
            assert(k@ =~= seq![]);
            Some(k)
        },
        _ => None,
    }
}

fn wl_data_offer_kinds(opcode: u16) -> (r: Option<Vec<ArgKind>>)
    ensures
        r matches Some(v) ==> Interface::WlDataOffer.kinds(opcode) == Some(v@),
        r is None ==> Interface::WlDataOffer.kinds(opcode) is None,
{
    match opcode {
        0 => {
            let mut k: Vec<ArgKind> = Vec::new();
            k.push(ArgKind::Uint);
            k.push(ArgKind::Str);
            assert(k@ =~= seq![ArgKind::Uint, ArgKind::Str]);
            Some(k)
        },
        1 => {
            let mut k: Vec<ArgKind> = Vec::new();
            k.push(ArgKind::Str);
            k.push(ArgKind::Fd);
            assert(k@ =~= seq![ArgKind::Str, ArgKind::Fd]);
            Some(k)
        },
        2 => {
            let mut k: Vec<ArgKind> = Vec::new();
            assert(k@ =~= seq![]);
            Some(k)
        },
        3 => {
            let mut k: Vec<ArgKind> = Vec::new();
            assert(k@ =~= seq![]);
            Some(k)
        },
        4 => {
            let mut k: Vec<ArgKind> = Vec::new();
            k.push(ArgKind::Uint);
            k.push(ArgKind::Uint);
            assert(k@ =~= seq![ArgKind::Uint, ArgKind::Uint]);
            Some(k)
        },
        _ => None,
    }
}

fn wl_data_source_kinds(opcode: u16) -> (r: Option<Vec<ArgKind>>)
    ensures
        r matches Some(v) ==> Interface::WlDataSource.kinds(opcode) == Some(v@),
        r is None ==> Interface::WlDataSource.kinds(opcode) is None,
{
    match opcode {
        0 => {
            let mut k: Vec<ArgKind> = Vec::new();
            k.push(ArgKind::Str);
            assert(k@ =~= seq![ArgKind::Str]);
            Some(k)
        },
        1 => {
            let mut k: Vec<ArgKind> = Vec::new();
            assert(k@ =~= seq![]);
            Some(k)
        },
        2 => {
            let mut k: Vec<ArgKind> = Vec::new();
            k.push(ArgKind::Uint);
            assert(k@ =~= seq![ArgKind::Uint]);
            Some(k)
        },
        _ => None,
    }
}

fn wl_data_device_kinds(opcode: u16) -> (r: Option<Vec<ArgKind>>)
    ensures
        r matches Some(v) ==> Interface::WlDataDevice.kinds(opcode) == Some(v@),
        r is None ==> Interface::WlDataDevice.kinds(opcode) is None,
{
    match opcode {
        0 => {
            let mut k: Vec<ArgKind> = Vec::new();
            k.push(ArgKind::Object);
            k.push(ArgKind::Object);
            k.push(ArgKind::Object);
            k.push(ArgKind::Uint);
            assert(k@ =~= seq![ArgKind::Object, ArgKind::Object, ArgKind::Object, ArgKind::Uint]);
            Some(k)
        },
        1 => {
            let mut k: Vec<ArgKind> = Vec::new();
            k.push(ArgKind::Object);
            k.push(ArgKind::Uint);
            assert(k@ =~= seq![ArgKind::Object, ArgKind::Uint]);
            Some(k)
        },
        2 => {
            let mut k: Vec<ArgKind> = Vec::new();
            assert(k@ =~= seq![]);
            Some(k)
        },
        _ => None,
    }
}

fn wl_data_device_manager_kinds(opcode: u16) -> (r: Option<Vec<ArgKind>>)
    ensures
        r matches Some(v) ==> Interface::WlDataDeviceManager.kinds(opcode) == Some(v@),
        r is None ==> Interface::WlDataDeviceManager.kinds(opcode) is None,
{
    match opcode {
        0 => {
            let mut k: Vec<ArgKind> = Vec::new();
            k.push(ArgKind::NewId);
            assert(k@ =~= seq![ArgKind::NewId]);
            Some(k)
        },
        1 => {
            let mut k: Vec<ArgKind> = Vec::new();
            k.push(ArgKind::NewId);
            k.push(ArgKind::Object);
            assert(k@ =~= seq![ArgKind::NewId, ArgKind::Object]);
            Some(k)
        },
        _ => None,
    }
}

fn wl_shell_kinds(opcode: u16) -> (r: Option<Vec<ArgKind>>)
    ensures
        r matches Some(v) ==> Interface::WlShell.kinds(opcode) == Some(v@),
        r is None ==> Interface::WlShell.kinds(opcode) is None,
{
    match opcode {
        0 => {
            let mut k: Vec<ArgKind> = Vec::new();
            k.push(ArgKind::NewId);
            k.push(ArgKind::Object);
            assert(k@ =~= seq![ArgKind::NewId, ArgKind::Object]);
            Some(k)
        },
        _ => None,
    }
}

fn wl_shell_surface_kinds(opcode: u16) -> (r: Option<Vec<ArgKind>>)
    ensures
        r matches Some(v) ==> Interface::WlShellSurface.kinds(opcode) == Some(v@),
        r is None ==> Interface::WlShellSurface.kinds(opcode) is None,
{
    match opcode {
        0 => {
            let mut k: Vec<ArgKind> = Vec::new();
            k.push(ArgKind::Uint);
            assert(k@ =~= seq![ArgKind::Uint]);
            Some(k)
        },
        1 => {
            let mut k: Vec<ArgKind> = Vec::new();
            k.push(ArgKind::Object);
            k.push(ArgKind::Uint);
            assert(k@ =~= seq![ArgKind::Object, ArgKind::Uint]);
            Some(k)
        },
        2 => {
            let mut k: Vec<ArgKind> = Vec::new();
            k.push(ArgKind::Object);
            k.push(ArgKind::Uint);
            k.push(ArgKind::Uint);
            assert(k@ =~= seq![ArgKind::Object, ArgKind::Uint, ArgKind::Uint]);
            Some(k)
        },
        3 => {
            let mut k: Vec<ArgKind> = Vec::new();
            assert(k@ =~= seq![]);
            Some(k)
        },
        4 => {
            let mut k: Vec<ArgKind> = Vec::new();
            k.push(ArgKind::Object);
            k.push(ArgKind::Int);
            k.push(ArgKind::Int);
            k.push(ArgKind::Uint);
            assert(k@ =~= seq![ArgKind::Object, ArgKind::Int, ArgKind::Int, ArgKind::Uint]);
            Some(k)
        },
        5 => {
            let mut k: Vec<ArgKind> = Vec::new();
            k.push(ArgKind::Uint);
            k.push(ArgKind::Uint);
            k.push(ArgKind::Object);
            assert(k@ =~= seq![ArgKind::Uint, ArgKind::Uint, ArgKind::Object]);
            Some(k)
        },
        6 => {
            let mut k: Vec<ArgKind> = Vec::new();
            k.push(ArgKind::Object);
            k.push(ArgKind::Uint);
            k.push(ArgKind::Object);
            k.push(ArgKind::Int);
            k.push(ArgKind::Int);
            k.push(ArgKind::Uint);
            assert(k@ =~= seq![ArgKind::Object, ArgKind::Uint, ArgKind::Object, ArgKind::Int, ArgKind::Int, ArgKind::Uint]);
            Some(k)
        },
        7 => {
            let mut k: Vec<ArgKind> = Vec::new();
            k.push(ArgKind::Object);
            assert(k@ =~= seq![ArgKind::Object]);
            Some(k)
        },
        8 => {
            let mut k: Vec<ArgKind> = Vec::new();
            k.push(ArgKind::Str);
            assert(k@ =~= seq![ArgKind::Str]);
            Some(k)
        },
        9 => {
            let mut k: Vec<ArgKind> = Vec::new();
            k.push(ArgKind::Str);
            assert(k@ =~= seq![ArgKind::Str]);
            Some(k)
        },
        _ => None,
    }
}

fn wl_surface_kinds(opcode: u16) -> (r: Option<Vec<ArgKind>>)
    ensures
        r matches Some(v) ==> Interface::WlSurface.kinds(opcode) == Some(v@),
        r is None ==> Interface::WlSurface.kinds(opcode) is None,
{
    match opcode {
        0 => {
            let mut k: Vec<ArgKind> = Vec::new();
            assert(k@ =~= seq![]);
            Some(k)
        },
        1 => {
            let mut k: Vec<ArgKind> = Vec::new();
            k.push(ArgKind::Object);
            k.push(ArgKind::Int);
            k.push(ArgKind::Int);
            assert(k@ =~= seq![ArgKind::Object, ArgKind::Int, ArgKind::Int]);
            Some(k)
        },
        2 => {
            let mut k: Vec<ArgKind> = Vec::new();
            k.push(ArgKind::Int);
            k.push(ArgKind::Int);
            k.push(ArgKind::Int);
            k.push(ArgKind::Int);
            assert(k@ =~= seq![ArgKind::Int, ArgKind::Int, ArgKind::Int, ArgKind::Int]);
            Some(k)
        },
        3 => {
            let mut k: Vec<ArgKind> = Vec::new();
            k.push(ArgKind::NewId);
            assert(k@ =~= seq![ArgKind::NewId]);
            Some(k)
        },
        4 => {
            let mut k: Vec<ArgKind> = Vec::new();
            k.push(ArgKind::Object);
            assert(k@ =~= seq![ArgKind::Object]);
            Some(k)
        },
        5 => {
            let mut k: Vec<ArgKind> = Vec::new();
            k.push(ArgKind::Object);
            assert(k@ =~= seq![ArgKind::Object]);
            Some(k)
        },
        6 => {
            let mut k: Vec<ArgKind> = Vec::new();
            assert(k@ =~= seq![]);
            Some(k)
        },
        7 => {
            let mut k: Vec<ArgKind> = Vec::new();
            k.push(ArgKind::Int);
            assert(k@ =~= seq![ArgKind::Int]);
            Some(k)
        },
        8 => {
            let mut k: Vec<ArgKind> = Vec::new();
            k.push(ArgKind::Int);
            assert(k@ =~= seq![ArgKind::Int]);
            Some(k)
        },
        9 => {
            let mut k: Vec<ArgKind> = Vec::new();
            k.push(ArgKind::Int);
            k.push(ArgKind::Int);
            k.push(ArgKind::Int);
            k.push(ArgKind::Int);
            assert(k@ =~= seq![ArgKind::Int, ArgKind::Int, ArgKind::Int, ArgKind::Int]);
            Some(k)
        },
        _ => None,
    }
}

fn wl_seat_kinds(opcode: u16) -> (r: Option<Vec<ArgKind>>)
    ensures
        r matches Some(v) ==> Interface::WlSeat.kinds(opcode) == Some(v@),
        r is None ==> Interface::WlSeat.kinds(opcode) is None,
{
    match opcode {
        0 => {
            let mut k: Vec<ArgKind> = Vec::new();
            k.push(ArgKind::NewId);
            assert(k@ =~= seq![ArgKind::NewId]);
            Some(k)
        },
        1 => {
            let mut k: Vec<ArgKind> = Vec::new();
            k.push(ArgKind::NewId);
            assert(k@ =~= seq![ArgKind::NewId]);
            Some(k)
        },
        2 => {
            let mut k: Vec<ArgKind> = Vec::new();
            k.push(ArgKind::NewId);
            assert(k@ =~= seq![ArgKind::NewId]);
            Some(k)
        },
        3 => {
            let mut k: Vec<ArgKind> = Vec::new();
            assert(k@ =~= seq![]);
            Some(k)
        },
        _ => None,
    }
}

fn wl_pointer_kinds(opcode: u16) -> (r: Option<Vec<ArgKind>>)
    ensures
        r matches Some(v) ==> Interface::WlPointer.kinds(opcode) == Some(v@),
        r is None ==> Interface::WlPointer.kinds(opcode) is None,
{
    match opcode {
        0 => {
            let mut k: Vec<ArgKind> = Vec::new();
            k.push(ArgKind::Uint);
            k.push(ArgKind::Object);
            k.push(ArgKind::Int);
            k.push(ArgKind::Int);
            assert(k@ =~= seq![ArgKind::Uint, ArgKind::Object, ArgKind::Int, ArgKind::Int]);
            Some(k)
        },
        1 => {
            let mut k: Vec<ArgKind> = Vec::new();
            assert(k@ =~= seq![]);
            Some(k)
        },
        _ => None,
    }
}

fn wl_keyboard_kinds(opcode: u16) -> (r: Option<Vec<ArgKind>>)
    ensures
        r matches Some(v) ==> Interface::WlKeyboard.kinds(opcode) == Some(v@),
        r is None ==> Interface::WlKeyboard.kinds(opcode) is None,
{
    match opcode {
        0 => {
            let mut k: Vec<ArgKind> = Vec::new();
            assert(k@ =~= seq![]);
            Some(k)
        },
        _ => None,
    }
}

fn wl_touch_kinds(opcode: u16) -> (r: Option<Vec<ArgKind>>)
    ensures
        r matches Some(v) ==> Interface::WlTouch.kinds(opcode) == Some(v@),
        r is None ==> Interface::WlTouch.kinds(opcode) is None,
{
    match opcode {
        0 => {
            let mut k: Vec<ArgKind> = Vec::new();
            assert(k@ =~= seq![]);
            Some(k)
        },
        _ => None,
    }
}

fn wl_output_kinds(opcode: u16) -> (r: Option<Vec<ArgKind>>)
    ensures
        r matches Some(v) ==> Interface::WlOutput.kinds(opcode) == Some(v@),
        r is None ==> Interface::WlOutput.kinds(opcode) is None,
{
    match opcode {
        0 => {
            let mut k: Vec<ArgKind> = Vec::new();
            assert(k@ =~= seq![]);
            Some(k)
        },
        _ => None,
    }
}

fn wl_region_kinds(opcode: u16) -> (r: Option<Vec<ArgKind>>)
    ensures
        r matches Some(v) ==> Interface::WlRegion.kinds(opcode) == Some(v@),
        r is None ==> Interface::WlRegion.kinds(opcode) is None,
{
    match opcode {
        0 => {
            let mut k: Vec<ArgKind> = Vec::new();
            assert(k@ =~= seq![]);
            Some(k)
        },
        1 => {
            let mut k: Vec<ArgKind> = Vec::new();
            k.push(ArgKind::Int);
            k.push(ArgKind::Int);
            k.push(ArgKind::Int);
            k.push(ArgKind::Int);
            assert(k@ =~= seq![ArgKind::Int, ArgKind::Int, ArgKind::Int, ArgKind::Int]);
            Some(k)
        },
        2 => {
            let mut k: Vec<ArgKind> = Vec::new();
            k.push(ArgKind::Int);
            k.push(ArgKind::Int);
            k.push(ArgKind::Int);
            k.push(ArgKind::Int);
            assert(k@ =~= seq![ArgKind::Int, ArgKind::Int, ArgKind::Int, ArgKind::Int]);
            Some(k)
        },
        _ => None,
    }
}

fn wl_subcompositor_kinds(opcode: u16) -> (r: Option<Vec<ArgKind>>)
    ensures
        r matches Some(v) ==> Interface::WlSubcompositor.kinds(opcode) == Some(v@),
        r is None ==> Interface::WlSubcompositor.kinds(opcode) is None,
{
    match opcode {
        0 => {
            let mut k: Vec<ArgKind> = Vec::new();
            assert(k@ =~= seq![]);
            Some(k)
        },
        1 => {
            let mut k: Vec<ArgKind> = Vec::new();
            k.push(ArgKind::NewId);
            k.push(ArgKind::Object);
            k.push(ArgKind::Object);
            assert(k@ =~= seq![ArgKind::NewId, ArgKind::Object, ArgKind::Object]);
            Some(k)
        },
        _ => None,
    }
}

fn wl_subsurface_kinds(opcode: u16) -> (r: Option<Vec<ArgKind>>)
    ensures
        r matches Some(v) ==> Interface::WlSubsurface.kinds(opcode) == Some(v@),
        r is None ==> Interface::WlSubsurface.kinds(opcode) is None,
{
    match opcode {
        0 => {
            let mut k: Vec<ArgKind> = Vec::new();
            assert(k@ =~= seq![]);
            Some(k)
        },
        1 => {
            let mut k: Vec<ArgKind> = Vec::new();
            k.push(ArgKind::Int);
            k.push(ArgKind::Int);
            assert(k@ =~= seq![ArgKind::Int, ArgKind::Int]);
            Some(k)
        },
        2 => {
            let mut k: Vec<ArgKind> = Vec::new();
            k.push(ArgKind::Object);
            assert(k@ =~= seq![ArgKind::Object]);
            Some(k)
        },
        3 => {
            let mut k: Vec<ArgKind> = Vec::new();
            k.push(ArgKind::Object);
            assert(k@ =~= seq![ArgKind::Object]);
            Some(k)
        },
        4 => {
            let mut k: Vec<ArgKind> = Vec::new();
            assert(k@ =~= seq![]);
            Some(k)
        },
        5 => {
            let mut k: Vec<ArgKind> = Vec::new();
            assert(k@ =~= seq![]);
            Some(k)
        },
        _ => None,
    }
}

fn xdg_wm_base_kinds(opcode: u16) -> (r: Option<Vec<ArgKind>>)
    ensures
        r matches Some(v) ==> Interface::XdgWmBase.kinds(opcode) == Some(v@),
        r is None ==> Interface::XdgWmBase.kinds(opcode) is None,
{
    match opcode {
        0 => {
            let mut k: Vec<ArgKind> = Vec::new();
            assert(k@ =~= seq![]);
            Some(k)
        },
        1 => {
            let mut k: Vec<ArgKind> = Vec::new();
            k.push(ArgKind::NewId);
            assert(k@ =~= seq![ArgKind::NewId]);
            Some(k)
        },
        2 => {
            let mut k: Vec<ArgKind> = Vec::new();
            k.push(ArgKind::NewId);
            k.push(ArgKind::Object);
            assert(k@ =~= seq![ArgKind::NewId, ArgKind::Object]);
            Some(k)
        },
        3 => {
            let mut k: Vec<ArgKind> = Vec::new();
            k.push(ArgKind::Uint);
            assert(k@ =~= seq![ArgKind::Uint]);
            Some(k)
        },
        _ => None,
    }
}

fn xdg_positioner_kinds(opcode: u16) -> (r: Option<Vec<ArgKind>>)
    ensures
        r matches Some(v) ==> Interface::XdgPositioner.kinds(opcode) == Some(v@),
        r is None ==> Interface::XdgPositioner.kinds(opcode) is None,
{
    match opcode {
        0 => {
            let mut k: Vec<ArgKind> = Vec::new();
            assert(k@ =~= seq![]);
            Some(k)
        },
        1 => {
            let mut k: Vec<ArgKind> = Vec::new();
            k.push(ArgKind::Int);
            k.push(ArgKind::Int);
            assert(k@ =~= seq![ArgKind::Int, ArgKind::Int]);
            Some(k)
        },
        2 => {
            let mut k: Vec<ArgKind> = Vec::new();
            k.push(ArgKind::Int);
            k.push(ArgKind::Int);
            k.push(ArgKind::Int);
            k.push(ArgKind::Int);
            assert(k@ =~= seq![ArgKind::Int, ArgKind::Int, ArgKind::Int, ArgKind::Int]);
            Some(k)
        },
        3 => {
            let mut k: Vec<ArgKind> = Vec::new();
            k.push(ArgKind::Uint);
            assert(k@ =~= seq![ArgKind::Uint]);
            Some(k)
        },
        4 => {
            let mut k: Vec<ArgKind> = Vec::new();
            k.push(ArgKind::Uint);
            assert(k@ =~= seq![ArgKind::Uint]);
            Some(k)
        },
        5 => {
            let mut k: Vec<ArgKind> = Vec::new();
            k.push(ArgKind::Uint);
            assert(k@ =~= seq![ArgKind::Uint]);
            Some(k)
        },
        6 => {
            let mut k: Vec<ArgKind> = Vec::new();
            k.push(ArgKind::Int);
            k.push(ArgKind::Int);
            assert(k@ =~= seq![ArgKind::Int, ArgKind::Int]);
            Some(k)
        },
        _ => None,
    }
}

fn xdg_surface_kinds(opcode: u16) -> (r: Option<Vec<ArgKind>>)
    ensures
        r matches Some(v) ==> Interface::XdgSurface.kinds(opcode) == Some(v@),
        r is None ==> Interface::XdgSurface.kinds(opcode) is None,
{
    match opcode {
        0 => {
            let mut k: Vec<ArgKind> = Vec::new();
            assert(k@ =~= seq![]);
            Some(k)
        },
        1 => {
            let mut k: Vec<ArgKind> = Vec::new();
            k.push(ArgKind::NewId);
            assert(k@ =~= seq![ArgKind::NewId]);
            Some(k)
        },
        2 => {
            let mut k: Vec<ArgKind> = Vec::new();
            k.push(ArgKind::NewId);
            k.push(ArgKind::Object);
            k.push(ArgKind::Object);
            assert(k@ =~= seq![ArgKind::NewId, ArgKind::Object, ArgKind::Object]);
            Some(k)
        },
        3 => {
            let mut k: Vec<ArgKind> = Vec::new();
            k.push(ArgKind::Int);
            k.push(ArgKind::Int);
            k.push(ArgKind::Int);
            k.push(ArgKind::Int);
            assert(k@ =~= seq![ArgKind::Int, ArgKind::Int, ArgKind::Int, ArgKind::Int]);
            Some(k)
        },
        4 => {
            let mut k: Vec<ArgKind> = Vec::new();
            k.push(ArgKind::Uint);
            assert(k@ =~= seq![ArgKind::Uint]);
            Some(k)
        },
        _ => None,
    }
}

fn xdg_toplevel_kinds(opcode: u16) -> (r: Option<Vec<ArgKind>>)
    ensures
        r matches Some(v) ==> Interface::XdgToplevel.kinds(opcode) == Some(v@),
        r is None ==> Interface::XdgToplevel.kinds(opcode) is None,
{
    match opcode {
        0 => {
            let mut k: Vec<ArgKind> = Vec::new();
            assert(k@ =~= seq![]);
            Some(k)
        },
        1 => {
            let mut k: Vec<ArgKind> = Vec::new();
            k.push(ArgKind::Object);
            assert(k@ =~= seq![ArgKind::Object]);
            Some(k)
        },
        2 => {
            let mut k: Vec<ArgKind> = Vec::new();
            k.push(ArgKind::Str);
            assert(k@ =~= seq![ArgKind::Str]);
            Some(k)
        },
        3 => {
            let mut k: Vec<ArgKind> = Vec::new();
            k.push(ArgKind::Str);
            assert(k@ =~= seq![ArgKind::Str]);
            Some(k)
        },
        4 => {
            let mut k: Vec<ArgKind> = Vec::new();
            k.push(ArgKind::Object);
            k.push(ArgKind::Uint);
            k.push(ArgKind::Int);
            k.push(ArgKind::Int);
            assert(k@ =~= seq![ArgKind::Object, ArgKind::Uint, ArgKind::Int, ArgKind::Int]);
            Some(k)
        },
        5 => {
            let mut k: Vec<ArgKind> = Vec::new();
            k.push(ArgKind::Object);
            k.push(ArgKind::Uint);
            assert(k@ =~= seq![ArgKind::Object, ArgKind::Uint]);
            Some(k)
        },
        6 => {
            let mut k: Vec<ArgKind> = Vec::new();
            k.push(ArgKind::Object);
            k.push(ArgKind::Uint);
            k.push(ArgKind::Uint);
            assert(k@ =~= seq![ArgKind::Object, ArgKind::Uint, ArgKind::Uint]);
            Some(k)
        },
        7 => {
            let mut k: Vec<ArgKind> = Vec::new();
            k.push(ArgKind::Int);
            k.push(ArgKind::Int);
            assert(k@ =~= seq![ArgKind::Int, ArgKind::Int]);
            Some(k)
        },
        8 => {
            let mut k: Vec<ArgKind> = Vec::new();
            k.push(ArgKind::Int);
            k.push(ArgKind::Int);
            assert(k@ =~= seq![ArgKind::Int, ArgKind::Int]);
            Some(k)
        },
        9 => {
            let mut k: Vec<ArgKind> = Vec::new();
            assert(k@ =~= seq![]);
            Some(k)
        },
        10 => {
            let mut k: Vec<ArgKind> = Vec::new();
            assert(k@ =~= seq![]);
            Some(k)
        },
        11 => {
            let mut k: Vec<ArgKind> = Vec::new();
            k.push(ArgKind::Object);
            assert(k@ =~= seq![ArgKind::Object]);
            Some(k)
        },
        12 => {
            let mut k: Vec<ArgKind> = Vec::new();
            assert(k@ =~= seq![]);
            Some(k)
        },
        13 => {
            let mut k: Vec<ArgKind> = Vec::new();
            assert(k@ =~= seq![]);
            Some(k)
        },
        _ => None,
    }
}

fn xdg_popup_kinds(opcode: u16) -> (r: Option<Vec<ArgKind>>)
    ensures
        r matches Some(v) ==> Interface::XdgPopup.kinds(opcode) == Some(v@),
        r is None ==> Interface::XdgPopup.kinds(opcode) is None,
{
    match opcode {
        0 => {
            let mut k: Vec<ArgKind> = Vec::new();
            assert(k@ =~= seq![]);
            Some(k)
        },
        1 => {
            let mut k: Vec<ArgKind> = Vec::new();
            k.push(ArgKind::Object);
            k.push(ArgKind::Uint);
            assert(k@ =~= seq![ArgKind::Object, ArgKind::Uint]);
            Some(k)
        },
        _ => None,
    }
}

impl Interface {
    /// How the proxy handles a request of the interface.
    pub open spec fn handler(self, opcode: u16) -> Handler {
        match self {
            Interface::WlDisplay => {
                if opcode == 0 {
                    Handler::Sync
                } else {
                    Handler::GetRegistry
                }
            },
            Interface::WlRegistry => Handler::Bind,
            Interface::WlCallback => Handler::Relay,
            Interface::WlCompositor => {
                if opcode == 0 {
                    Handler::CreateSurface
                } else {
                    Handler::CreateRegion
                }
            },
            Interface::WlShmPool => Handler::Unimplemented,
            Interface::WlShm => Handler::Relay,
            Interface::WlBuffer => Handler::Unimplemented,
            Interface::WlDataOffer => Handler::Unimplemented,
            Interface::WlDataSource => Handler::Keep,
            Interface::WlDataDevice => {
                if opcode == 2 {
                    Handler::Destroy
                } else {
                    Handler::UnimplementedAt
                }
            },
            Interface::WlDataDeviceManager => Handler::Keep,
            Interface::WlShell => Handler::Relay,
            Interface::WlShellSurface => Handler::Stop,
            Interface::WlSurface => Handler::Relay,
            Interface::WlSeat => Handler::UnimplementedAt,
            Interface::WlPointer => Handler::Keep,
            Interface::WlKeyboard => Handler::Keep,
            Interface::WlTouch => Handler::Keep,
            Interface::WlOutput => Handler::Keep,
            Interface::WlRegion => Handler::Unimplemented,
            Interface::WlSubcompositor => Handler::Relay,
            Interface::WlSubsurface => Handler::Relay,
            Interface::XdgWmBase => {
                if opcode == 0 {
                    Handler::DestroyWmBase
                } else {
                    Handler::Keep
                }
            },
            Interface::XdgPositioner => {
                if opcode == 1 {
                    Handler::SetSize
                } else {
                    Handler::Unimplemented
                }
            },
            Interface::XdgSurface => {
                if opcode == 3 {
                    Handler::SetWindowGeometry
                } else {
                    Handler::Relay
                }
            },
            Interface::XdgToplevel => Handler::UnimplementedAt,
            Interface::XdgPopup => Handler::Keep,
        }
    }

    pub fn handler_of(&self, opcode: u16) -> (r: Handler)
        ensures
            r == self.handler(opcode),
    {
        match self {
            Interface::WlDisplay => {
                if opcode == 0 {
                    Handler::Sync
                } else {
                    Handler::GetRegistry
                }
            },
            Interface::WlRegistry => Handler::Bind,
            Interface::WlCallback => Handler::Relay,
            Interface::WlCompositor => {
                if opcode == 0 {
                    Handler::CreateSurface
                } else {
                    Handler::CreateRegion
                }
            },
            Interface::WlShmPool => Handler::Unimplemented,
            Interface::WlShm => Handler::Relay,
            Interface::WlBuffer => Handler::Unimplemented,
            Interface::WlDataOffer => Handler::Unimplemented,
            Interface::WlDataSource => Handler::Keep,
            Interface::WlDataDevice => {
                if opcode == 2 {
                    Handler::Destroy
                } else {
                    Handler::UnimplementedAt
                }
            },
            Interface::WlDataDeviceManager => Handler::Keep,
            Interface::WlShell => Handler::Relay,
            Interface::WlShellSurface => Handler::Stop,
            Interface::WlSurface => Handler::Relay,
            Interface::WlSeat => Handler::UnimplementedAt,
            Interface::WlPointer => Handler::Keep,
            Interface::WlKeyboard => Handler::Keep,
            Interface::WlTouch => Handler::Keep,
            Interface::WlOutput => Handler::Keep,
            Interface::WlRegion => Handler::Unimplemented,
            Interface::WlSubcompositor => Handler::Relay,
            Interface::WlSubsurface => Handler::Relay,
            Interface::XdgWmBase => {
                if opcode == 0 {
                    Handler::DestroyWmBase
                } else {
                    Handler::Keep
                }
            },
            Interface::XdgPositioner => {
                if opcode == 1 {
                    Handler::SetSize
                } else {
                    Handler::Unimplemented
                }
            },
            Interface::XdgSurface => {
                if opcode == 3 {
                    Handler::SetWindowGeometry
                } else {
                    Handler::Relay
                }
            },
            Interface::XdgToplevel => Handler::UnimplementedAt,
            Interface::XdgPopup => Handler::Keep,
        }
    }

    /// The method name of a request of the interface.
    pub open spec fn method(self, opcode: u16) -> Seq<char> {
        match self {
            Interface::WlDisplay => {
                if opcode == 0 {
                    "sync"@
                } else if opcode == 1 {
                    "get_registry"@
                } else {
                    ""@
                }
            },
            Interface::WlRegistry => {
                if opcode == 0 {
                    "bind"@
                } else {
                    ""@
                }
            },
            Interface::WlCallback => ""@,
            Interface::WlCompositor => {
                if opcode == 0 {
                    "create_surface"@
                } else if opcode == 1 {
                    "create_region"@
                } else {
                    ""@
                }
            },
            Interface::WlShmPool => {
                if opcode == 0 {
                    "create_buffer"@
                } else if opcode == 1 {
                    "destroy"@
                } else if opcode == 2 {
                    "resize"@
                } else {
                    ""@
                }
            },
            Interface::WlShm => {
                if opcode == 0 {
                    "create_pool"@
                } else {
                    ""@
                }
            },
            Interface::WlBuffer => {
                if opcode == 0 {
                    "destroy"@
                } else {
                    ""@
                }
            },
            Interface::WlDataOffer => {
                if opcode == 0 {
                    "accept"@
                } else if opcode == 1 {
                    "receive"@
                } else if opcode == 2 {
                    "destroy"@
                } else if opcode == 3 {
                    "finish"@
                } else if opcode == 4 {
                    "set_actions"@
                } else {
                    ""@
                }
            },
            Interface::WlDataSource => {
                if opcode == 0 {
                    "offer"@
                } else if opcode == 1 {
                    "destroy"@
                } else if opcode == 2 {
                    "set_actions"@
                } else {
                    ""@
                }
            },
            Interface::WlDataDevice => {
                if opcode == 0 {
                    "start_drag"@
                } else if opcode == 1 {
                    "set_selection"@
                } else if opcode == 2 {
                    "release"@
                } else {
                    ""@
                }
            },
            Interface::WlDataDeviceManager => {
                if opcode == 0 {
                    "create_data_source"@
                } else if opcode == 1 {
                    "get_data_device"@
                } else {
                    ""@
                }
            },
            Interface::WlShell => {
                if opcode == 0 {
                    "get_shell_surface"@
                } else {
                    ""@
                }
            },
            Interface::WlShellSurface => {
                if opcode == 0 {
                    "pong"@
                } else if opcode == 1 {
                    "move"@
                } else if opcode == 2 {
                    "resize"@
                } else if opcode == 3 {
                    "set_toplevel"@
                } else if opcode == 4 {
                    "set_transient"@
                } else if opcode == 5 {
                    "set_fullscreen"@
                } else if opcode == 6 {
                    "set_popup"@
                } else if opcode == 7 {
                    "set_maximized"@
                } else if opcode == 8 {
                    "set_title"@
                } else if opcode == 9 {
                    "set_class"@
                } else {
                    ""@
                }
            },
            Interface::WlSurface => {
                if opcode == 0 {
                    "destroy"@
                } else if opcode == 1 {
                    "attach"@
                } else if opcode == 2 {
                    "damage"@
                } else if opcode == 3 {
                    "frame"@
                } else if opcode == 4 {
                    "set_opaque_region"@
                } else if opcode == 5 {
                    "set_input_region"@
                } else if opcode == 6 {
                    "commit"@
                } else if opcode == 7 {
                    "set_buffer_transform"@
                } else if opcode == 8 {
                    "set_buffer_scale"@
                } else if opcode == 9 {
                    "damage_buffer"@
                } else {
                    ""@
                }
            },
            Interface::WlSeat => {
                if opcode == 0 {
                    "get_pointer"@
                } else if opcode == 1 {
                    "get_keyboard"@
                } else if opcode == 2 {
                    "get_touch"@
                } else if opcode == 3 {
                    "release"@
                } else {
                    ""@
                }
            },
            Interface::WlPointer => {
                if opcode == 0 {
                    "set_cursor"@
                } else if opcode == 1 {
                    "release"@
                } else {
                    ""@
                }
            },
            Interface::WlKeyboard => {
                if opcode == 0 {
                    "release"@
                } else {
                    ""@
                }
            },
            Interface::WlTouch => {
                if opcode == 0 {
                    "release"@
                } else {
                    ""@
                }
            },
            Interface::WlOutput => {
                if opcode == 0 {
                    "release"@
                } else {
                    ""@
                }
            },
            Interface::WlRegion => {
                if opcode == 0 {
                    "destroy"@
                } else if opcode == 1 {
                    "add"@
                } else if opcode == 2 {
                    "subtract"@
                } else {
                    ""@
                }
            },
            Interface::WlSubcompositor => {
                if opcode == 0 {
                    "destroy"@
                } else if opcode == 1 {
                    "get_subsurface"@
                } else {
                    ""@
                }
            },
            Interface::WlSubsurface => {
                if opcode == 0 {
                    "destroy"@
                } else if opcode == 1 {
                    "set_position"@
                } else if opcode == 2 {
                    "place_above"@
                } else if opcode == 3 {
                    "place_below"@
                } else if opcode == 4 {
                    "set_sync"@
                } else if opcode == 5 {
                    "set_desync"@
                } else {
                    ""@
                }
            },
            Interface::XdgWmBase => {
                if opcode == 0 {
                    "destroy"@
                } else if opcode == 1 {
                    "create_positioner"@
                } else if opcode == 2 {
                    "get_xdg_surface"@
                } else if opcode == 3 {
                    "pong"@
                } else {
                    ""@
                }
            },
            Interface::XdgPositioner => {
                if opcode == 0 {
                    "destroy"@
                } else if opcode == 1 {
                    "set_size"@
                } else if opcode == 2 {
                    "set_anchor_rect"@
                } else if opcode == 3 {
                    "set_anchor"@
                } else if opcode == 4 {
                    "set_gravity"@
                } else if opcode == 5 {
                    "set_constraint_adjustment"@
                } else if opcode == 6 {
                    "set_offset"@
                } else {
                    ""@
                }
            },
            Interface::XdgSurface => {
                if opcode == 0 {
                    "destroy"@
                } else if opcode == 1 {
                    "get_toplevel"@
                } else if opcode == 2 {
                    "get_popup"@
                } else if opcode == 3 {
                    "set_window_geometry"@
                } else if opcode == 4 {
                    "ack_configure"@
                } else {
                    ""@
                }
            },
            Interface::XdgToplevel => {
                if opcode == 0 {
                    "destroy"@
                } else if opcode == 1 {
                    "set_parent"@
                } else if opcode == 2 {
                    "set_title"@
                } else if opcode == 3 {
                    "set_app_id"@
                } else if opcode == 4 {
                    "show_window_menu"@
                } else if opcode == 5 {
                    "move"@
                } else if opcode == 6 {
                    "resize"@
                } else if opcode == 7 {
                    "set_max_size"@
                } else if opcode == 8 {
                    "set_min_size"@
                } else if opcode == 9 {
                    "set_maximized"@
                } else if opcode == 10 {
                    "unset_maximized"@
                } else if opcode == 11 {
                    "set_fullscreen"@
                } else if opcode == 12 {
                    "unset_fullscreen"@
                } else if opcode == 13 {
                    "set_minimized"@
                } else {
                    ""@
                }
            },
            Interface::XdgPopup => {
                if opcode == 0 {
                    "destroy"@
                } else if opcode == 1 {
                    "grab"@
                } else {
                    ""@
                }
            },
        }
    }

    pub fn method_name(&self, opcode: u16) -> (r: &'static str)
        ensures
            r@ == self.method(opcode),
    {
        match self {
            Interface::WlDisplay => {
                if opcode == 0 {
                    "sync"
                } else if opcode == 1 {
                    "get_registry"
                } else {
                    ""
                }
            },
            Interface::WlRegistry => {
                if opcode == 0 {
                    "bind"
                } else {
                    ""
                }
            },
            Interface::WlCallback => "",
            Interface::WlCompositor => {
                if opcode == 0 {
                    "create_surface"
                } else if opcode == 1 {
                    "create_region"
                } else {
                    ""
                }
            },
            Interface::WlShmPool => {
                if opcode == 0 {
                    "create_buffer"
                } else if opcode == 1 {
                    "destroy"
                } else if opcode == 2 {
                    "resize"
                } else {
                    ""
                }
            },
            Interface::WlShm => {
                if opcode == 0 {
                    "create_pool"
                } else {
                    ""
                }
            },
            Interface::WlBuffer => {
                if opcode == 0 {
                    "destroy"
                } else {
                    ""
                }
            },
            Interface::WlDataOffer => {
                if opcode == 0 {
                    "accept"
                } else if opcode == 1 {
                    "receive"
                } else if opcode == 2 {
                    "destroy"
                } else if opcode == 3 {
                    "finish"
                } else if opcode == 4 {
                    "set_actions"
                } else {
                    ""
                }
            },
            Interface::WlDataSource => {
                if opcode == 0 {
                    "offer"
                } else if opcode == 1 {
                    "destroy"
                } else if opcode == 2 {
                    "set_actions"
                } else {
                    ""
                }
            },
            Interface::WlDataDevice => {
                if opcode == 0 {
                    "start_drag"
                } else if opcode == 1 {
                    "set_selection"
                } else if opcode == 2 {
                    "release"
                } else {
                    ""
                }
            },
            Interface::WlDataDeviceManager => {
                if opcode == 0 {
                    "create_data_source"
                } else if opcode == 1 {
                    "get_data_device"
                } else {
                    ""
                }
            },
            Interface::WlShell => {
                if opcode == 0 {
                    "get_shell_surface"
                } else {
                    ""
                }
            },
            Interface::WlShellSurface => {
                if opcode == 0 {
                    "pong"
                } else if opcode == 1 {
                    "move"
                } else if opcode == 2 {
                    "resize"
                } else if opcode == 3 {
                    "set_toplevel"
                } else if opcode == 4 {
                    "set_transient"
                } else if opcode == 5 {
                    "set_fullscreen"
                } else if opcode == 6 {
                    "set_popup"
                } else if opcode == 7 {
                    "set_maximized"
                } else if opcode == 8 {
                    "set_title"
                } else if opcode == 9 {
                    "set_class"
                } else {
                    ""
                }
            },
            Interface::WlSurface => {
                if opcode == 0 {
                    "destroy"
                } else if opcode == 1 {
                    "attach"
                } else if opcode == 2 {
                    "damage"
                } else if opcode == 3 {
                    "frame"
                } else if opcode == 4 {
                    "set_opaque_region"
                } else if opcode == 5 {
                    "set_input_region"
                } else if opcode == 6 {
                    "commit"
                } else if opcode == 7 {
                    "set_buffer_transform"
                } else if opcode == 8 {
                    "set_buffer_scale"
                } else if opcode == 9 {
                    "damage_buffer"
                } else {
                    ""
                }
            },
            Interface::WlSeat => {
                if opcode == 0 {
                    "get_pointer"
                } else if opcode == 1 {
                    "get_keyboard"
                } else if opcode == 2 {
                    "get_touch"
                } else if opcode == 3 {
                    "release"
                } else {
                    ""
                }
            },
            Interface::WlPointer => {
                if opcode == 0 {
                    "set_cursor"
                } else if opcode == 1 {
                    "release"
                } else {
                    ""
                }
            },
            Interface::WlKeyboard => {
                if opcode == 0 {
                    "release"
                } else {
                    ""
                }
            },
            Interface::WlTouch => {
                if opcode == 0 {
                    "release"
                } else {
                    ""
                }
            },
            Interface::WlOutput => {
                if opcode == 0 {
                    "release"
                } else {
                    ""
                }
            },
            Interface::WlRegion => {
                if opcode == 0 {
                    "destroy"
                } else if opcode == 1 {
                    "add"
                } else if opcode == 2 {
                    "subtract"
                } else {
                    ""
                }
            },
            Interface::WlSubcompositor => {
                if opcode == 0 {
                    "destroy"
                } else if opcode == 1 {
                    "get_subsurface"
                } else {
                    ""
                }
            },
            Interface::WlSubsurface => {
                if opcode == 0 {
                    "destroy"
                } else if opcode == 1 {
                    "set_position"
                } else if opcode == 2 {
                    "place_above"
                } else if opcode == 3 {
                    "place_below"
                } else if opcode == 4 {
                    "set_sync"
                } else if opcode == 5 {
                    "set_desync"
                } else {
                    ""
                }
            },
            Interface::XdgWmBase => {
                if opcode == 0 {
                    "destroy"
                } else if opcode == 1 {
                    "create_positioner"
                } else if opcode == 2 {
                    "get_xdg_surface"
                } else if opcode == 3 {
                    "pong"
                } else {
                    ""
                }
            },
            Interface::XdgPositioner => {
                if opcode == 0 {
                    "destroy"
                } else if opcode == 1 {
                    "set_size"
                } else if opcode == 2 {
                    "set_anchor_rect"
                } else if opcode == 3 {
                    "set_anchor"
                } else if opcode == 4 {
                    "set_gravity"
                } else if opcode == 5 {
                    "set_constraint_adjustment"
                } else if opcode == 6 {
                    "set_offset"
                } else {
                    ""
                }
            },
            Interface::XdgSurface => {
                if opcode == 0 {
                    "destroy"
                } else if opcode == 1 {
                    "get_toplevel"
                } else if opcode == 2 {
                    "get_popup"
                } else if opcode == 3 {
                    "set_window_geometry"
                } else if opcode == 4 {
                    "ack_configure"
                } else {
                    ""
                }
            },
            Interface::XdgToplevel => {
                if opcode == 0 {
                    "destroy"
                } else if opcode == 1 {
                    "set_parent"
                } else if opcode == 2 {
                    "set_title"
                } else if opcode == 3 {
                    "set_app_id"
                } else if opcode == 4 {
                    "show_window_menu"
                } else if opcode == 5 {
                    "move"
                } else if opcode == 6 {
                    "resize"
                } else if opcode == 7 {
                    "set_max_size"
                } else if opcode == 8 {
                    "set_min_size"
                } else if opcode == 9 {
                    "set_maximized"
                } else if opcode == 10 {
                    "unset_maximized"
                } else if opcode == 11 {
                    "set_fullscreen"
                } else if opcode == 12 {
                    "unset_fullscreen"
                } else if opcode == 13 {
                    "set_minimized"
                } else {
                    ""
                }
            },
            Interface::XdgPopup => {
                if opcode == 0 {
                    "destroy"
                } else if opcode == 1 {
                    "grab"
                } else {
                    ""
                }
            },
        }
    }
}

} // verus!
