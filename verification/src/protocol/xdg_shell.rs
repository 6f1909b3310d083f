//! The xdg shell protocol.

pub mod xdg_popup;
pub mod xdg_positioner;
pub mod xdg_surface;
pub mod xdg_toplevel;
pub mod xdg_wm_base;
