//! The objects that a client session holds, by id.

use crate::interface::Interface;
use crate::protocol::wayland::wl_buffer::WlBuffer;
use crate::protocol::wayland::wl_callback::WlCallback;
use crate::protocol::wayland::wl_compositor::WlCompositor;
use crate::protocol::wayland::wl_data_device::WlDataDevice;
use crate::protocol::wayland::wl_data_device_manager::WlDataDeviceManager;
use crate::protocol::wayland::wl_data_offer::WlDataOffer;
use crate::protocol::wayland::wl_data_source::WlDataSource;
use crate::protocol::wayland::wl_display::WlDisplay;
use crate::protocol::wayland::wl_keyboard::WlKeyboard;
use crate::protocol::wayland::wl_output::WlOutput;
use crate::protocol::wayland::wl_pointer::WlPointer;
use crate::protocol::wayland::wl_region::WlRegion;
use crate::protocol::wayland::wl_registry::WlRegistry;
use crate::protocol::wayland::wl_seat::WlSeat;
use crate::protocol::wayland::wl_shell::WlShell;
use crate::protocol::wayland::wl_shell_surface::WlShellSurface;
use crate::protocol::wayland::wl_shm::WlShm;
use crate::protocol::wayland::wl_shm_pool::WlShmPool;
use crate::protocol::wayland::wl_subcompositor::WlSubcompositor;
use crate::protocol::wayland::wl_subsurface::WlSubsurface;
use crate::protocol::wayland::wl_surface::WlSurface;
use crate::protocol::wayland::wl_touch::WlTouch;
use crate::protocol::xdg_shell::xdg_popup::XdgPopup;
use crate::protocol::xdg_shell::xdg_positioner::XdgPositioner;
use crate::protocol::xdg_shell::xdg_surface::XdgSurface;
use crate::protocol::xdg_shell::xdg_toplevel::XdgToplevel;
use crate::protocol::xdg_shell::xdg_wm_base::XdgWmBase;
use vstd::prelude::*;

verus! {

/// An object of a client session.
pub enum Resource {
    WlBuffer(WlBuffer),
    WlCallback(WlCallback),
    WlCompositor(WlCompositor),
    WlDataDevice(WlDataDevice),
    WlDataDeviceManager(WlDataDeviceManager),
    WlDataOffer(WlDataOffer),
    WlDataSource(WlDataSource),
    WlDisplay(WlDisplay),
    WlKeyboard(WlKeyboard),
    WlOutput(WlOutput),
    WlPointer(WlPointer),
    WlRegion(WlRegion),
    WlRegistry(WlRegistry),
    WlSeat(WlSeat),
    WlShell(WlShell),
    WlShellSurface(WlShellSurface),
    WlShm(WlShm),
    WlShmPool(WlShmPool),
    WlSubcompositor(WlSubcompositor),
    WlSubsurface(WlSubsurface),
    WlSurface(WlSurface),
    WlTouch(WlTouch),
    XdgPopup(XdgPopup),
    XdgPositioner(XdgPositioner),
    XdgSurface(XdgSurface),
    XdgToplevel(XdgToplevel),
    XdgWmBase(XdgWmBase),
}

impl Resource {
    /// The interface of the object.
    pub open spec fn iface(self) -> Interface {
        match self {
            Resource::WlBuffer(_) => Interface::WlBuffer,
            Resource::WlCallback(_) => Interface::WlCallback,
            Resource::WlCompositor(_) => Interface::WlCompositor,
            Resource::WlDataDevice(_) => Interface::WlDataDevice,
            Resource::WlDataDeviceManager(_) => Interface::WlDataDeviceManager,
            Resource::WlDataOffer(_) => Interface::WlDataOffer,
            Resource::WlDataSource(_) => Interface::WlDataSource,
            Resource::WlDisplay(_) => Interface::WlDisplay,
            Resource::WlKeyboard(_) => Interface::WlKeyboard,
            Resource::WlOutput(_) => Interface::WlOutput,
            Resource::WlPointer(_) => Interface::WlPointer,
            Resource::WlRegion(_) => Interface::WlRegion,
            Resource::WlRegistry(_) => Interface::WlRegistry,
            Resource::WlSeat(_) => Interface::WlSeat,
            Resource::WlShell(_) => Interface::WlShell,
            Resource::WlShellSurface(_) => Interface::WlShellSurface,
            Resource::WlShm(_) => Interface::WlShm,
            Resource::WlShmPool(_) => Interface::WlShmPool,
            Resource::WlSubcompositor(_) => Interface::WlSubcompositor,
            Resource::WlSubsurface(_) => Interface::WlSubsurface,
            Resource::WlSurface(_) => Interface::WlSurface,
            Resource::WlTouch(_) => Interface::WlTouch,
            Resource::XdgPopup(_) => Interface::XdgPopup,
            Resource::XdgPositioner(_) => Interface::XdgPositioner,
            Resource::XdgSurface(_) => Interface::XdgSurface,
            Resource::XdgToplevel(_) => Interface::XdgToplevel,
            Resource::XdgWmBase(_) => Interface::XdgWmBase,
        }
    }

    pub fn interface(&self) -> (r: Interface)
        ensures
            r == self.iface(),
    {
        match self {
            Resource::WlBuffer(_) => Interface::WlBuffer,
            Resource::WlCallback(_) => Interface::WlCallback,
            Resource::WlCompositor(_) => Interface::WlCompositor,
            Resource::WlDataDevice(_) => Interface::WlDataDevice,
            Resource::WlDataDeviceManager(_) => Interface::WlDataDeviceManager,
            Resource::WlDataOffer(_) => Interface::WlDataOffer,
            Resource::WlDataSource(_) => Interface::WlDataSource,
            Resource::WlDisplay(_) => Interface::WlDisplay,
            Resource::WlKeyboard(_) => Interface::WlKeyboard,
            Resource::WlOutput(_) => Interface::WlOutput,
            Resource::WlPointer(_) => Interface::WlPointer,
            Resource::WlRegion(_) => Interface::WlRegion,
            Resource::WlRegistry(_) => Interface::WlRegistry,
            Resource::WlSeat(_) => Interface::WlSeat,
            Resource::WlShell(_) => Interface::WlShell,
            Resource::WlShellSurface(_) => Interface::WlShellSurface,
            Resource::WlShm(_) => Interface::WlShm,
            Resource::WlShmPool(_) => Interface::WlShmPool,
            Resource::WlSubcompositor(_) => Interface::WlSubcompositor,
            Resource::WlSubsurface(_) => Interface::WlSubsurface,
            Resource::WlSurface(_) => Interface::WlSurface,
            Resource::WlTouch(_) => Interface::WlTouch,
            Resource::XdgPopup(_) => Interface::XdgPopup,
            Resource::XdgPositioner(_) => Interface::XdgPositioner,
            Resource::XdgSurface(_) => Interface::XdgSurface,
            Resource::XdgToplevel(_) => Interface::XdgToplevel,
            Resource::XdgWmBase(_) => Interface::XdgWmBase,
        }
    }
}

} // verus!
