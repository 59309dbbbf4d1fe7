//! The host part of a URL: a domain name or an IP address of either
//! family, with conversions that fail loudly on the wrong variant.

use vstd::prelude::*;
use crate::errors::Error;
use crate::ip4::RsIpv4Addr;
use crate::ip6::RsIpv6Addr;

verus! {

/// A domain name or an IP address.
#[derive(Clone, Debug, PartialEq, Eq)]
pub enum RsUrlHost {
    Domain { name: String },
    Ipv4 { addr: RsIpv4Addr },
    Ipv6 { addr: RsIpv6Addr },
}

pub fn rs_url_host_domain(domain: String) -> (r: RsUrlHost)
    ensures
        r == (RsUrlHost::Domain { name: domain }),
{
    RsUrlHost::Domain { name: domain }
}

pub fn rs_url_host_from_ipv4(addr: RsIpv4Addr) -> (r: RsUrlHost)
    ensures
        r == (RsUrlHost::Ipv4 { addr }),
{
    RsUrlHost::Ipv4 { addr }
}

pub fn rs_url_host_from_ipv6(addr: RsIpv6Addr) -> (r: RsUrlHost)
    ensures
        r == (RsUrlHost::Ipv6 { addr }),
{
    RsUrlHost::Ipv6 { addr }
}

pub fn rs_url_host_destroy(host: RsUrlHost) {
    let _ = host;
}

impl RsUrlHost {
    pub fn rs_url_host_is_domain(&self) -> (r: bool)
        ensures
            r == (self is Domain),
    {
        matches!(self, RsUrlHost::Domain { .. })
    }

    pub fn rs_url_host_is_ipv4(&self) -> (r: bool)
        ensures
            r == (self is Ipv4),
    {
        matches!(self, RsUrlHost::Ipv4 { .. })
    }

    pub fn rs_url_host_is_ipv6(&self) -> (r: bool)
        ensures
            r == (self is Ipv6),
    {
        matches!(self, RsUrlHost::Ipv6 { .. })
    }

    /// The domain name; `TypeMismatch` exactly on an address.
    pub fn rs_url_host_to_domain(&self) -> (r: Result<String, Error>)
        ensures
            match self {
                RsUrlHost::Domain { name } => r == Ok::<String, Error>(*name),
                _ => r == Err::<String, Error>(Error::TypeMismatch),
            },
    {
        match self {
            RsUrlHost::Domain { name } => Ok(name.clone()),
            _ => Err(Error::TypeMismatch),
        }
    }

    /// The IPv4 address; `TypeMismatch` exactly on another variant.
    pub fn rs_url_host_to_ipv4(&self) -> (r: Result<RsIpv4Addr, Error>)
        ensures
            match self {
                RsUrlHost::Ipv4 { addr } => r == Ok::<RsIpv4Addr, Error>(*addr),
                _ => r == Err::<RsIpv4Addr, Error>(Error::TypeMismatch),
            },
    {
        match self {
            RsUrlHost::Ipv4 { addr } => Ok(*addr),
            _ => Err(Error::TypeMismatch),
        }
    }

    /// The IPv6 address; `TypeMismatch` exactly on another variant.
    pub fn rs_url_host_to_ipv6(&self) -> (r: Result<RsIpv6Addr, Error>)
        ensures
            match self {
                RsUrlHost::Ipv6 { addr } => r == Ok::<RsIpv6Addr, Error>(*addr),
                _ => r == Err::<RsIpv6Addr, Error>(Error::TypeMismatch),
            },
    {
        match self {
            RsUrlHost::Ipv6 { addr } => Ok(*addr),
            _ => Err(Error::TypeMismatch),
        }
    }

    /// An exact copy of this host.
    pub fn rs_url_host_clone(&self) -> (r: RsUrlHost)
        ensures
            r == *self,
    {
        match self {
            RsUrlHost::Domain { name } => RsUrlHost::Domain { name: name.clone() },
            RsUrlHost::Ipv4 { addr } => RsUrlHost::Ipv4 { addr: *addr },
            RsUrlHost::Ipv6 { addr } => RsUrlHost::Ipv6 { addr: *addr },
        }
    }
}

} // verus!
