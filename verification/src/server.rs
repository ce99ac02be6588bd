//! Where the server can be reached.

use crate::text::{decimal, glue, glue3, show_u64, trim, trimmed};
use vstd::prelude::*;
use vstd::string::*;

verus! {

/// The address to listen at.
pub fn listen_address(bind_address: &str, port: u16) -> (res: String)
    ensures
        res@ == bind_address@ + ":"@ + decimal(port as nat),
{
    let number = show_u64(port as u64);
    glue3(bind_address, ":", number.as_str())
}

/// The message when the address cannot be listened at.
pub fn bind_failure(address: &str, error: &str) -> (res: String)
    ensures
        res@ == "Failed to bind to "@ + address@ + ": "@ + error@,
{
    glue(glue3("Failed to bind to ", address, ": ").as_str(), error)
}

/// An IPv4 address.
#[derive(Clone, Copy)]
pub struct Ipv4 {
    pub a: u8,
    pub b: u8,
    pub c: u8,
    pub d: u8,
}

/// Whether an address is the machine itself: 127.0.0.0/8.
pub open spec fn loopback(ip: Ipv4) -> bool {
    ip.a == 127
}

/// Whether an address is one of a private network: 10.0.0.0/8, 172.16.0.0/12 or
/// 192.168.0.0/16.
pub open spec fn private(ip: Ipv4) -> bool {
    ||| ip.a == 10
    ||| ip.a == 172 && 16 <= ip.b <= 31
    ||| ip.a == 192 && ip.b == 168
}

/// An address as it is written.
pub open spec fn written(ip: Ipv4) -> Seq<char> {
    decimal(ip.a as nat) + "."@ + decimal(ip.b as nat) + ("."@ + decimal(ip.c as nat) + ("."@ + decimal(
        ip.d as nat,
    )))
}

fn write_ip(ip: Ipv4) -> (res: String)
    ensures
        res@ == written(ip),
{
    let a = show_u64(ip.a as u64);
    let b = show_u64(ip.b as u64);
    let c = show_u64(ip.c as u64);
    let d = show_u64(ip.d as u64);
    let tail = glue(".", d.as_str());
    let middle = glue3(".", c.as_str(), tail.as_str());
    let head = glue3(a.as_str(), ".", b.as_str());
    glue(head.as_str(), middle.as_str())
}

/// A line with an address: the label, filled up to ten characters, and where to
/// connect to.
pub open spec fn line(label: Seq<char>, address: Seq<char>, port: u16) -> Seq<char> {
    "  "@ + label + "  "@ + (address + ":"@ + decimal(port as nat))
}

fn make_line(label: &str, address: &str, port: u16) -> (res: String)
    ensures
        res@ == line(label@, address@, port),
{
    let number = show_u64(port as u64);
    let head = glue3("  ", label, "  ");
    let tail = glue3(address, ":", number.as_str());
    glue(head.as_str(), tail.as_str())
}

/// What is printed about an address of the machine: nothing about the machine
/// itself, and whether it is private about the others.
pub open spec fn interface_line(ip: Ipv4, port: u16) -> Option<Seq<char>> {
    if loopback(ip) {
        None
    } else if private(ip) {
        Some(line("LAN       "@, written(ip), port))
    } else {
        Some(line("Public    "@, written(ip), port))
    }
}

/// What is printed about an address of the machine.
pub fn describe_interface(ip: Ipv4, port: u16) -> (res: Option<String>)
    ensures
        crate::json::opt_text(res) == interface_line(ip, port),
{
    if ip.a == 127 {
        return None;
    }
    let address = write_ip(ip);
    let is_private = ip.a == 10 || (ip.a == 172 && 16 <= ip.b && ip.b <= 31) || (ip.a == 192 && ip.b
        == 168);
    if is_private {
        Some(make_line("LAN       ", address.as_str(), port))
    } else {
        Some(make_line("Public    ", address.as_str(), port))
    }
}

/// What is printed about the address that an outside service sees.
pub open spec fn public_line(answer: Seq<char>, port: u16) -> Option<Seq<char>> {
    if trimmed(answer).len() == 0 {
        None
    } else {
        Some(line("Public    "@, trimmed(answer), port))
    }
}

/// What is printed about the address that an outside service sees.
pub fn describe_public(answer: &str, port: u16) -> (res: Option<String>)
    ensures
        crate::json::opt_text(res) == public_line(answer@, port),
{
    let address = trim(answer);
    if address.as_str().unicode_len() == 0 {
        return None;
    }
    Some(make_line("Public    ", address.as_str(), port))
}

/// What is printed about the machine itself.
pub fn describe_local(port: u16) -> (res: String)
    ensures
        res@ == "  Local:      127.0.0.1:"@ + decimal(port as nat),
{
    let number = show_u64(port as u64);
    glue("  Local:      127.0.0.1:", number.as_str())
}

/// Of the addresses of the machine those of other machines are described, the
/// private ones as such, each with the port.
pub proof fn addresses_are_described(ip: Ipv4, port: u16)
    ensures
        ({
            let at = decimal(ip.a as nat) + "."@ + decimal(ip.b as nat) + ("."@ + decimal(ip.c as nat) + ("."@
                + decimal(ip.d as nat)));
            let lan = ip.a == 10 || (ip.a == 172 && 16 <= ip.b && ip.b < 32) || (ip.a == 192 && ip.b == 168);
            &&& interface_line(ip, port) is None <==> ip.a == 127
            &&& lan ==> interface_line(ip, port) == Some(
                "  "@ + "LAN       "@ + "  "@ + (at + ":"@ + decimal(port as nat)),
            )
            &&& !lan && ip.a != 127 ==> interface_line(ip, port) == Some(
                "  "@ + "Public    "@ + "  "@ + (at + ":"@ + decimal(port as nat)),
            )
        }),
{
}

/// The address that an outside service sees is described without white space
/// around it, if it says one.
pub proof fn the_outside_address_is_described(answer: Seq<char>, port: u16)
    ensures
        trimmed(answer).len() == 0 ==> public_line(answer, port) is None,
        trimmed(answer).len() > 0 ==> public_line(answer, port) == Some(
            "  "@ + "Public    "@ + "  "@ + (trimmed(answer) + ":"@ + decimal(port as nat)),
        ),
{
}

} // verus!
