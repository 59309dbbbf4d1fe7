//! An IP address of either family, with family conversions that fail
//! loudly on the wrong variant.

use vstd::prelude::*;
use crate::errors::Error;
use crate::ip4::RsIpv4Addr;
use crate::ip6::RsIpv6Addr;

verus! {

/// An IPv4 or IPv6 address.
#[derive(Clone, Copy, Debug, PartialEq, Eq)]
pub enum RsIpAddr {
    V4 { addr: RsIpv4Addr },
    V6 { addr: RsIpv6Addr },
}

pub fn rs_ip_addr_from_ipv4(ipv4: RsIpv4Addr) -> (r: RsIpAddr)
    ensures
        r == (RsIpAddr::V4 { addr: ipv4 }),
{
    RsIpAddr::V4 { addr: ipv4 }
}

pub fn rs_ip_addr_from_ipv6(ipv6: RsIpv6Addr) -> (r: RsIpAddr)
    ensures
        r == (RsIpAddr::V6 { addr: ipv6 }),
{
    RsIpAddr::V6 { addr: ipv6 }
}

pub fn rs_ip_addr_destroy(addr: RsIpAddr) {
    let _ = addr;
}

impl RsIpAddr {
    pub fn rs_ip_addr_is_ipv4(&self) -> (r: bool)
        ensures
            r == (self is V4),
    {
        matches!(self, RsIpAddr::V4 { .. })
    }

    pub fn rs_ip_addr_is_ipv6(&self) -> (r: bool)
        ensures
            r == (self is V6),
    {
        matches!(self, RsIpAddr::V6 { .. })
    }

    pub fn rs_ip_addr_is_unspecified(&self) -> (r: bool)
        ensures
            r == match self {
                RsIpAddr::V4 { addr } => addr.octets@ =~= seq![0u8, 0u8, 0u8, 0u8],
                RsIpAddr::V6 { addr } => forall|i: int| 0 <= i < 8 ==> addr.segments@[i] == 0,
            },
    {
        match self {
            RsIpAddr::V4 { addr } => addr.rs_ipv4_addr_is_unspecified(),
            RsIpAddr::V6 { addr } => addr.rs_ipv6_addr_is_unspecified(),
        }
    }

    pub fn rs_ip_addr_is_loopback(&self) -> (r: bool)
        ensures
            r == match self {
                RsIpAddr::V4 { addr } => addr.spec_octet(0) == 127,
                RsIpAddr::V6 { addr } => addr.segments@ =~= seq![
                    0u16,
                    0u16,
                    0u16,
                    0u16,
                    0u16,
                    0u16,
                    0u16,
                    1u16,
                ],
            },
    {
        match self {
            RsIpAddr::V4 { addr } => addr.rs_ipv4_addr_is_loopback(),
            RsIpAddr::V6 { addr } => addr.rs_ipv6_addr_is_loopback(),
        }
    }

    pub fn rs_ip_addr_is_multicast(&self) -> (r: bool)
        ensures
            r == match self {
                RsIpAddr::V4 { addr } => 224 <= addr.spec_octet(0) < 240,
                RsIpAddr::V6 { addr } => addr.spec_segment(0) & 0xff00 == 0xff00,
            },
    {
        match self {
            RsIpAddr::V4 { addr } => addr.rs_ipv4_addr_is_multicast(),
            RsIpAddr::V6 { addr } => addr.rs_ipv6_addr_is_multicast(),
        }
    }

    /// An IPv4-mapped IPv6 address as the IPv4 address it maps; any other
    /// address unchanged.
    pub fn rs_ip_addr_to_canonical(&self) -> (r: RsIpAddr)
        ensures
            self is V4 ==> r == *self,
            self matches RsIpAddr::V6 { addr } ==> if addr.spec_is_ipv4_mapped() {
                r matches RsIpAddr::V4 { addr: v4 } && v4.octets@ == addr.spec_mapped_octets()
            } else {
                r == *self
            },
    {
        match self {
            RsIpAddr::V4 { .. } => *self,
            RsIpAddr::V6 { addr } => {
                if addr.rs_ipv6_addr_is_ipv4_mapped() {
                    let v4 = addr.mapped_ipv4();
                    proof {
                        assert(v4.octets@ =~= addr.spec_mapped_octets());
                    }
                    RsIpAddr::V4 { addr: v4 }
                } else {
                    *self
                }
            },
        }
    }

    /// The IPv4 form of the address; `TypeMismatch` exactly on an IPv6
    /// address.
    pub fn rs_ip_addr_to_ipv4(&self) -> (r: Result<RsIpv4Addr, Error>)
        ensures
            match self {
                RsIpAddr::V4 { addr } => r == Ok::<RsIpv4Addr, Error>(*addr),
                RsIpAddr::V6 { .. } => r == Err::<RsIpv4Addr, Error>(Error::TypeMismatch),
            },
    {
        match self {
            RsIpAddr::V4 { addr } => Ok(*addr),
            RsIpAddr::V6 { .. } => Err(Error::TypeMismatch),
        }
    }

    /// The IPv6 form of the address; `TypeMismatch` exactly on an IPv4
    /// address.
    pub fn rs_ip_addr_to_ipv6(&self) -> (r: Result<RsIpv6Addr, Error>)
        ensures
            match self {
                RsIpAddr::V4 { .. } => r == Err::<RsIpv6Addr, Error>(Error::TypeMismatch),
                RsIpAddr::V6 { addr } => r == Ok::<RsIpv6Addr, Error>(*addr),
            },
    {
        match self {
            RsIpAddr::V4 { .. } => Err(Error::TypeMismatch),
            RsIpAddr::V6 { addr } => Ok(*addr),
        }
    }
}

} // verus!
