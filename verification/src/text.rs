//! The texts of the errors that the proxy sends to clients.

use vstd::prelude::*;

verus! {

/// The character of the decimal digit `d`.
pub open spec fn digit_char(d: nat) -> char {
    (d + 48) as char
}

/// An unsigned integer in decimal, as `{}` writes it: its digits, most
/// significant first, with no leading zero.
pub open spec fn decimal(n: nat) -> Seq<char>
    decreases n,
{
    if n < 10 {
        seq![digit_char(n)]
    } else {
        decimal(n / 10).push(digit_char(n % 10))
    }
}

/// What `{:?}` writes for a list of bytes. The standard library does not
/// fix its `Debug` output, so the text is only named, as a function of the
/// bytes.
pub uninterp spec fn debug_bytes(args: Seq<u8>) -> Seq<char>;

/// The text of `format!("object_id={} opcode={} args={:?} not found", ..)`.
pub open spec fn object_not_found_text(id: u32, opcode: u16, args: Seq<char>) -> Seq<char> {
    "object_id="@ + decimal(id as nat) + " opcode="@ + decimal(opcode as nat) + " args="@ + args
        + " not found"@
}

/// The text of `format!("opcode={} args={:?} not found", ..)`.
pub open spec fn opcode_not_found_text(opcode: u16, args: Seq<char>) -> Seq<char> {
    "opcode="@ + decimal(opcode as nat) + " args="@ + args + " not found"@
}

/// The text of `format!("{}@{} opcode={} args={:?} not found", ..)`.
pub open spec fn object_opcode_not_found_text(iface: Seq<char>, id: u32, opcode: u16, args: Seq<char>) -> Seq<
    char,
> {
    iface + "@"@ + decimal(id as nat) + " opcode="@ + decimal(opcode as nat) + " args="@ + args
        + " not found"@
}

/// The text of `format!("{}@{}::{} is not implemented yet", ..)`.
pub open spec fn object_method_unimplemented_text(iface: Seq<char>, id: u32, method: Seq<char>) -> Seq<char> {
    iface + "@"@ + decimal(id as nat) + "::"@ + method + " is not implemented yet"@
}

/// The text that names a method that the proxy does not implement.
pub open spec fn method_unimplemented_text(iface: Seq<char>, method: Seq<char>) -> Seq<char> {
    iface + "::"@ + method + " is not implemented yet"@
}

/// Formats the message for a request to an object that does not exist, with
/// `format!`; claims that the text is the template with the numbers in
/// decimal and `args` the bytes as `debug_bytes` names them.
#[verifier::external_body]
pub(crate) fn object_not_found_message(id: u32, opcode: u16, args: &Vec<u8>) -> (r: String)
    ensures
        r@ == object_not_found_text(id, opcode, debug_bytes(args@)),
{
    format!("object_id={} opcode={} args={:?} not found", id, opcode, args)
}

/// Formats the message for a request that does not decode, with `format!`;
/// claims that the text is the template with the number in decimal and the
/// bytes as `debug_bytes` names them.
#[verifier::external_body]
pub(crate) fn opcode_not_found_message(opcode: u16, args: &Vec<u8>) -> (r: String)
    ensures
        r@ == opcode_not_found_text(opcode, debug_bytes(args@)),
{
    format!("opcode={} args={:?} not found", opcode, args)
}

/// Formats the message, naming the object, for a request that does not
/// decode, with `format!`; claims that the text is the template with the
/// numbers in decimal and the bytes as `debug_bytes` names them.
#[verifier::external_body]
pub(crate) fn object_opcode_not_found_message(iface: &str, id: u32, opcode: u16, args: &Vec<u8>) -> (r:
    String)
    ensures
        r@ == object_opcode_not_found_text(iface@, id, opcode, debug_bytes(args@)),
{
    format!("{}@{} opcode={} args={:?} not found", iface, id, opcode, args)
}

/// Formats the message, naming the object, for a method that the proxy does
/// not implement, with `format!`; claims that the text is the template with
/// the id in decimal.
#[verifier::external_body]
pub(crate) fn object_method_unimplemented_message(iface: &str, id: u32, method: &str) -> (r: String)
    ensures
        r@ == object_method_unimplemented_text(iface@, id, method@),
{
    format!("{}@{}::{} is not implemented yet", iface, id, method)
}

/// Formats the message for a method that the proxy does not implement, with
/// `format!`; claims that the text is the interface, `::`, the method and
/// ` is not implemented yet`.
#[verifier::external_body]
pub(crate) fn method_unimplemented_message(iface: &str, method: &str) -> (r: String)
    ensures
        r@ == method_unimplemented_text(iface@, method@),
{
    format!("{}::{} is not implemented yet", iface, method)
}

/// The text of `format!("WlRegistry@{}.bind(name={}, id={}) not found", ..)`.
pub open spec fn bind_not_found_text(registry: u32, name: u32, id: u32) -> Seq<char> {
    "WlRegistry@"@ + decimal(registry as nat) + ".bind(name="@ + decimal(name as nat) + ", id="@ + decimal(id as nat)
        + ") not found"@
}

/// The text of
/// `format!("XdgWmBase@{}::create_positioner(xdg_positioner_id={}): wl_surface not found", ..)`.
pub open spec fn create_positioner_text(wm_base: u32, positioner: u32) -> Seq<char> {
    "XdgWmBase@"@ + decimal(wm_base as nat) + "::create_positioner(xdg_positioner_id="@ + decimal(positioner as nat)
        + "): wl_surface not found"@
}

/// The text of
/// `format!("XdgWmBase@{}::get_xdg_surface(xdg_surface_id={} wl_surface_id={}): wl_surface not found", ..)`.
pub open spec fn surface_not_found_text(wm_base: u32, xdg_surface: u32, wl_surface: u32) -> Seq<char> {
    "XdgWmBase@"@ + decimal(wm_base as nat) + "::get_xdg_surface(xdg_surface_id="@ + decimal(xdg_surface as nat)
        + " wl_surface_id="@ + decimal(wl_surface as nat) + "): wl_surface not found"@
}

/// Formats the message for a `wl_registry.bind` of a name that no global
/// has, with `format!`; claims that the text is the template with the
/// numbers in decimal.
#[verifier::external_body]
pub(crate) fn bind_not_found_message(registry: u32, name: u32, id: u32) -> (r: String)
    ensures
        r@ == bind_not_found_text(registry, name, id),
{
    format!("WlRegistry@{}.bind(name={}, id={}) not found", registry, name, id)
}

/// Formats the message that refuses `xdg_wm_base.create_positioner`, with
/// `format!`; claims that the text is the template with the numbers in
/// decimal.
#[verifier::external_body]
pub(crate) fn create_positioner_message(wm_base: u32, positioner: u32) -> (r: String)
    ensures
        r@ == create_positioner_text(wm_base, positioner),
{
    format!("XdgWmBase@{}::create_positioner(xdg_positioner_id={}): wl_surface not found", wm_base, positioner)
}

/// Formats the message for an `xdg_wm_base.get_xdg_surface` whose surface
/// does not exist, with `format!`; claims that the text is the template with
/// the numbers in decimal.
#[verifier::external_body]
pub(crate) fn surface_not_found_message(wm_base: u32, xdg_surface: u32, wl_surface: u32) -> (r: String)
    ensures
        r@ == surface_not_found_text(wm_base, xdg_surface, wl_surface),
{
    format!(
        "XdgWmBase@{}::get_xdg_surface(xdg_surface_id={} wl_surface_id={}): wl_surface not found",
        wm_base,
        xdg_surface,
        wl_surface
    )
}

} // verus!
