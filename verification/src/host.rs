//! Extra host entries injected into a container: a hostname mapped either
//! to a parsed IP address or to the host gateway.

use vstd::prelude::*;
use crate::errors::ConfigIssue;
use crate::errors::Error;
use crate::ipaddr::RsIpAddr;
use crate::iptext::parse_ip;
use crate::iptext::spec_parse_ipv4;
use crate::iptext::spec_parse_ipv6;

verus! {

/// What a hostname entry maps to.
#[derive(Clone, Copy, Debug, PartialEq, Eq)]
pub enum RsHost {
    /// A successfully parsed IP address; construction fails otherwise.
    Addr { addr: RsIpAddr },
    /// The address of the host as the container runtime defines it.
    HostGateway,
}

/// A host entry from an address string, validated up front: construction
/// fails with a configuration error exactly when the string is not an IP
/// address of either family.
pub fn rs_host_addr(addr: String) -> (r: Result<RsHost, Error>)
    ensures
        r is Ok <==> (spec_parse_ipv4(addr@) is Some || spec_parse_ipv6(addr@) is Some),
        r matches Ok(RsHost::Addr { addr: RsIpAddr::V4 { addr: a } }) ==> spec_parse_ipv4(
            addr@,
        ) matches Some(o) && a.octets@ == o,
        r matches Ok(RsHost::Addr { addr: RsIpAddr::V6 { addr: a } }) ==> spec_parse_ipv6(
            addr@,
        ) matches Some(t) && a.segments@ == t && spec_parse_ipv4(addr@) is None,
        r matches Ok(h) ==> h is Addr,
        r matches Err(e) ==> e == (Error::ConfigurationError {
            issue: ConfigIssue::MalformedHostAddress,
        }),
{
    match parse_ip(&addr) {
        Some(a) => Ok(RsHost::Addr { addr: a }),
        None => Err(Error::ConfigurationError { issue: ConfigIssue::MalformedHostAddress }),
    }
}

pub fn rs_host_host_gateway_linux() -> (r: RsHost)
    ensures
        r == RsHost::HostGateway,
{
    RsHost::HostGateway
}

pub fn rs_host_destroy(host: RsHost) {
    let _ = host;
}

} // verus!
