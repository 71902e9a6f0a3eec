//! Internet addresses as plain values, and the address classes that the host
//! accepts for signaling and ICE.
use vstd::prelude::*;

verus! {

/// An IPv4 or IPv6 address, each held as its big-endian bits
/// (`a.b.c.d` is `a << 24 | b << 16 | c << 8 | d`).
#[derive(Debug, Clone, Copy, PartialEq, Eq, Hash)]
pub enum IpAddress {
    V4(u32),
    V6(u128),
}

/// An IP address with a port.
#[derive(Debug, Clone, Copy, PartialEq, Eq, Hash)]
pub struct SocketAddress {
    pub ip: IpAddress,
    pub port: u16,
}

/// The bits of the IPv4 address `a.b.c.d`.
pub open spec fn v4_bits(a: u8, b: u8, c: u8, d: u8) -> u32 {
    ((a as u32) << 24u32) | ((b as u32) << 16u32) | ((c as u32) << 8u32) | (d as u32)
}

/// The first octet of an IPv4 address.
pub open spec fn v4_octet0(bits: u32) -> u32 {
    bits >> 24u32
}

/// The second octet of an IPv4 address.
pub open spec fn v4_octet1(bits: u32) -> u32 {
    (bits >> 16u32) & 0xffu32
}

/// The first 16-bit segment of an IPv6 address.
pub open spec fn v6_segment0(bits: u128) -> u128 {
    bits >> 112u128
}

/// `10.0.0.0/8`, `172.16.0.0/12` or `192.168.0.0/16`.
pub open spec fn v4_is_private(bits: u32) -> bool {
    v4_octet0(bits) == 10 || (v4_octet0(bits) == 172 && 16 <= v4_octet1(bits) <= 31)
        || (v4_octet0(bits) == 192 && v4_octet1(bits) == 168)
}

/// `127.0.0.0/8`.
pub open spec fn v4_is_loopback(bits: u32) -> bool {
    v4_octet0(bits) == 127
}

/// `169.254.0.0/16`.
pub open spec fn v4_is_link_local(bits: u32) -> bool {
    v4_octet0(bits) == 169 && v4_octet1(bits) == 254
}

/// `::1`.
pub open spec fn v6_is_loopback(bits: u128) -> bool {
    bits == 1
}

/// `fc00::/7`.
pub open spec fn v6_is_unique_local(bits: u128) -> bool {
    (v6_segment0(bits) & 0xfe00u128) == 0xfc00u128
}

/// `fe80::/10`.
pub open spec fn v6_is_unicast_link_local(bits: u128) -> bool {
    (v6_segment0(bits) & 0xffc0u128) == 0xfe80u128
}

/// An address on the local network: private, loopback or link-local for IPv4;
/// loopback, unique local or unicast link-local for IPv6.
pub open spec fn spec_is_private_lan(ip: IpAddress) -> bool {
    match ip {
        IpAddress::V4(b) => v4_is_private(b) || v4_is_loopback(b) || v4_is_link_local(b),
        IpAddress::V6(b) => v6_is_loopback(b) || v6_is_unique_local(b) || v6_is_unicast_link_local(b),
    }
}

/// `0.0.0.0` or `::`.
pub open spec fn spec_is_unspecified(ip: IpAddress) -> bool {
    match ip {
        IpAddress::V4(b) => b == 0,
        IpAddress::V6(b) => b == 0,
    }
}

/// `127.0.0.0/8` or `::1`.
pub open spec fn spec_is_loopback(ip: IpAddress) -> bool {
    match ip {
        IpAddress::V4(b) => v4_is_loopback(b),
        IpAddress::V6(b) => v6_is_loopback(b),
    }
}

impl IpAddress {
    /// The IPv4 address `a.b.c.d`.
    pub fn v4(a: u8, b: u8, c: u8, d: u8) -> (ip: IpAddress)
        ensures
            ip == IpAddress::V4(v4_bits(a, b, c, d)),
    {
        IpAddress::V4(((a as u32) << 24u32) | ((b as u32) << 16u32) | ((c as u32) << 8u32) | (d as u32))
    }

    /// The IPv4 loopback address `127.0.0.1`.
    pub fn localhost_v4() -> (ip: IpAddress)
        ensures
            ip == IpAddress::V4(v4_bits(127, 0, 0, 1)),
    {
        IpAddress::v4(127, 0, 0, 1)
    }

    /// Whether this is the unspecified address of its family.
    pub fn is_unspecified(&self) -> (r: bool)
        ensures
            r == spec_is_unspecified(*self),
    {
        match self {
            IpAddress::V4(b) => *b == 0,
            IpAddress::V6(b) => *b == 0,
        }
    }

    /// Whether this is a loopback address.
    pub fn is_loopback(&self) -> (r: bool)
        ensures
            r == spec_is_loopback(*self),
    {
        match self {
            IpAddress::V4(b) => (*b >> 24u32) == 127,
            IpAddress::V6(b) => *b == 1,
        }
    }
}

/// Whether `ip` belongs to the local network (see [`spec_is_private_lan`]).
pub fn is_private_lan_ip(ip: IpAddress) -> (r: bool)
    ensures
        r == spec_is_private_lan(ip),
{
    match ip {
        IpAddress::V4(b) => {
            let o0 = b >> 24u32;
            let o1 = (b >> 16u32) & 0xffu32;
            let private = o0 == 10 || (o0 == 172 && 16 <= o1 && o1 <= 31) || (o0 == 192 && o1 == 168);
            let loopback = o0 == 127;
            let link_local = o0 == 169 && o1 == 254;
            private || loopback || link_local
        },
        IpAddress::V6(b) => {
            let seg0 = b >> 112u128;
            b == 1 || (seg0 & 0xfe00u128) == 0xfc00u128 || (seg0 & 0xffc0u128) == 0xfe80u128
        },
    }
}


/// The IPv4 local-network addresses are exactly the blocks `10.0.0.0/8`,
/// `172.16.0.0/12`, `192.168.0.0/16`, `127.0.0.0/8` and `169.254.0.0/16`, each
/// whole, whatever the remaining bits.
pub proof fn private_lan_v4_blocks(b: u32)
    ensures
        spec_is_private_lan(IpAddress::V4(b)) <==> (b >> 24u32 == 10u32 || b >> 20u32 == 0xac1u32 || b >> 16u32
            == 0xc0a8u32 || b >> 24u32 == 127u32 || b >> 16u32 == 0xa9feu32),
{
    assert((v4_is_private(b) || v4_is_loopback(b) || v4_is_link_local(b)) <==> (b >> 24u32 == 10u32 || b >> 20u32
        == 0xac1u32 || b >> 16u32 == 0xc0a8u32 || b >> 24u32 == 127u32 || b >> 16u32 == 0xa9feu32)) by (bit_vector);
}

/// The IPv6 local-network addresses are exactly `::1` and the blocks
/// `fc00::/7` and `fe80::/10`, each whole.
pub proof fn private_lan_v6_blocks(b: u128)
    ensures
        spec_is_private_lan(IpAddress::V6(b)) <==> (b == 1u128 || b >> 121u128 == 0x7eu128 || b >> 118u128
            == 0x3fau128),
{
    assert((v6_is_loopback(b) || v6_is_unique_local(b) || v6_is_unicast_link_local(b)) <==> (b == 1u128 || b
        >> 121u128 == 0x7eu128 || b >> 118u128 == 0x3fau128)) by (bit_vector);
}


/// The unspecified addresses are exactly `0.0.0.0` and `::`; the loopback
/// addresses are exactly `127.0.0.0/8` and `::1`.
pub proof fn unspecified_and_loopback_addresses(b4: u32, b6: u128)
    ensures
        spec_is_unspecified(IpAddress::V4(b4)) <==> b4 == 0,
        spec_is_unspecified(IpAddress::V6(b6)) <==> b6 == 0,
        spec_is_loopback(IpAddress::V4(b4)) <==> b4 >> 24u32 == 127u32,
        spec_is_loopback(IpAddress::V6(b6)) <==> b6 == 1,
{
}

} // verus!
