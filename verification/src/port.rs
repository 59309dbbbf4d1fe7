//! Declared container ports: a protocol tag and a port number, immutable
//! once constructed.

use vstd::prelude::*;

verus! {

/// A declared (protocol, number) network endpoint exposed by a container.
#[derive(Clone, Copy, Debug, PartialEq, Eq, Structural)]
pub enum RsContainerPort {
    Tcp { number: u16 },
    Udp { number: u16 },
    Sctp { number: u16 },
}

impl RsContainerPort {
    /// The port number, whatever the protocol.
    pub fn rs_container_port_as_u16(&self) -> (r: u16)
        ensures
            r == self.spec_number(),
    {
        match self {
            RsContainerPort::Tcp { number } => *number,
            RsContainerPort::Udp { number } => *number,
            RsContainerPort::Sctp { number } => *number,
        }
    }

    pub fn rs_container_port_is_tcp(&self) -> (r: bool)
        ensures
            r == (self is Tcp),
    {
        matches!(self, RsContainerPort::Tcp { .. })
    }

    pub fn rs_container_port_is_udp(&self) -> (r: bool)
        ensures
            r == (self is Udp),
    {
        matches!(self, RsContainerPort::Udp { .. })
    }

    pub fn rs_container_port_is_sctp(&self) -> (r: bool)
        ensures
            r == (self is Sctp),
    {
        matches!(self, RsContainerPort::Sctp { .. })
    }

    /// The port number as a spec-level value.
    pub open spec fn spec_number(&self) -> u16 {
        match self {
            RsContainerPort::Tcp { number } => *number,
            RsContainerPort::Udp { number } => *number,
            RsContainerPort::Sctp { number } => *number,
        }
    }
}

pub fn rs_container_port_tcp(port: u16) -> (r: RsContainerPort)
    ensures
        r == (RsContainerPort::Tcp { number: port }),
{
    RsContainerPort::Tcp { number: port }
}

pub fn rs_container_port_udp(port: u16) -> (r: RsContainerPort)
    ensures
        r == (RsContainerPort::Udp { number: port }),
{
    RsContainerPort::Udp { number: port }
}

pub fn rs_container_port_sctp(port: u16) -> (r: RsContainerPort)
    ensures
        r == (RsContainerPort::Sctp { number: port }),
{
    RsContainerPort::Sctp { number: port }
}

pub fn rs_container_port_destroy(port: RsContainerPort) {
    let _ = port;
}

/// Removes and returns the last declared port, if any.
pub fn rs_container_port_vec_pop(vec: &mut Vec<RsContainerPort>) -> (r: Option<RsContainerPort>)
    ensures
        old(vec)@.len() == 0 ==> r is None && final(vec)@ == old(vec)@,
        old(vec)@.len() > 0 ==> r == Some(old(vec)@.last())
            && final(vec)@ == old(vec)@.drop_last(),
{
    vec.pop()
}

} // verus!
