//! The interfaces of the protocols that the proxy speaks: their objects,
//! events and enumerations.

pub mod wayland;
pub mod xdg_shell;
