//! IPv4 address values: four octets, classification predicates, decimal
//! text form. Pure and immutable; nothing here touches a network.

use vstd::prelude::*;

verus! {

/// An IPv4 address, as its four octets in network order.
#[derive(Clone, Copy, Debug, PartialEq, Eq)]
pub struct RsIpv4Addr {
    pub octets: [u8; 4],
}

impl RsIpv4Addr {
    /// The address as one 32-bit value, most significant octet first.
    pub open spec fn spec_bits(&self) -> int {
        self.octets@[0] * 0x100_0000 + self.octets@[1] * 0x1_0000 + self.octets@[2] * 0x100
            + self.octets@[3]
    }

    pub open spec fn spec_octet(&self, i: int) -> u8 {
        self.octets@[i]
    }
}

pub fn rs_ipv4_addr_new(a: u8, b: u8, c: u8, d: u8) -> (r: RsIpv4Addr)
    ensures
        r.octets@ =~= seq![a, b, c, d],
{
    RsIpv4Addr { octets: [a, b, c, d] }
}

pub fn rs_ipv4_addr_localhost() -> (r: RsIpv4Addr)
    ensures
        r.octets@ =~= seq![127u8, 0u8, 0u8, 1u8],
{
    RsIpv4Addr { octets: [127, 0, 0, 1] }
}

pub fn rs_ipv4_addr_unspecified() -> (r: RsIpv4Addr)
    ensures
        r.octets@ =~= seq![0u8, 0u8, 0u8, 0u8],
{
    RsIpv4Addr { octets: [0, 0, 0, 0] }
}

pub fn rs_ipv4_addr_broadcast() -> (r: RsIpv4Addr)
    ensures
        r.octets@ =~= seq![255u8, 255u8, 255u8, 255u8],
{
    RsIpv4Addr { octets: [255, 255, 255, 255] }
}

pub fn rs_ipv4_addr_from_octets(octets: [u8; 4]) -> (r: RsIpv4Addr)
    ensures
        r.octets@ == octets@,
{
    RsIpv4Addr { octets }
}

pub fn rs_ipv4_addr_from_bits(bits: u32) -> (r: RsIpv4Addr)
    ensures
        r.spec_bits() == bits,
{
    let a = (bits >> 24) as u8;
    let b = ((bits >> 16) & 0xff) as u8;
    let c = ((bits >> 8) & 0xff) as u8;
    let d = (bits & 0xff) as u8;
    proof {
        assert(a * 0x100_0000 + b * 0x1_0000 + c * 0x100 + d == bits) by (bit_vector)
            requires
                a == (bits >> 24) as u8,
                b == ((bits >> 16) & 0xff) as u8,
                c == ((bits >> 8) & 0xff) as u8,
                d == (bits & 0xff) as u8,
        ;
    }
    let r = RsIpv4Addr { octets: [a, b, c, d] };
    r
}

pub fn rs_ipv4_addr_destroy(addr: RsIpv4Addr) {
    let _ = addr;
}

impl RsIpv4Addr {
    pub fn rs_ipv4_addr_to_bits(&self) -> (r: u32)
        ensures
            r == self.spec_bits(),
    {
        let a = self.octets[0] as u32;
        let b = self.octets[1] as u32;
        let c = self.octets[2] as u32;
        let d = self.octets[3] as u32;
        let r = (a << 24) | (b << 16) | (c << 8) | d;
        proof {
            assert(r == a * 0x100_0000 + b * 0x1_0000 + c * 0x100 + d) by (bit_vector)
                requires
                    a < 0x100,
                    b < 0x100,
                    c < 0x100,
                    d < 0x100,
                    r == (a << 24) | (b << 16) | (c << 8) | d,
            ;
        }
        r
    }

    pub fn rs_ipv4_addr_octets(&self) -> (r: [u8; 4])
        ensures
            r@ == self.octets@,
    {
        self.octets
    }

    pub fn rs_ipv4_addr_is_unspecified(&self) -> (r: bool)
        ensures
            r == (self.octets@ =~= seq![0u8, 0u8, 0u8, 0u8]),
    {
        let r = self.octets[0] == 0 && self.octets[1] == 0 && self.octets[2] == 0
            && self.octets[3] == 0;
        proof {
            if r {
                assert(self.octets@ =~= seq![0u8, 0u8, 0u8, 0u8]);
            }
        }
        r
    }

    /// In 127.0.0.0/8.
    pub fn rs_ipv4_addr_is_loopback(&self) -> (r: bool)
        ensures
            r == (self.spec_octet(0) == 127),
    {
        self.octets[0] == 127
    }

    /// In 10.0.0.0/8, 172.16.0.0/12 or 192.168.0.0/16.
    pub fn rs_ipv4_addr_is_private(&self) -> (r: bool)
        ensures
            r == (self.spec_octet(0) == 10 || (self.spec_octet(0) == 172 && 16 <= self.spec_octet(1)
                < 32) || (self.spec_octet(0) == 192 && self.spec_octet(1) == 168)),
    {
        self.octets[0] == 10 || (self.octets[0] == 172 && 16 <= self.octets[1] && self.octets[1]
            < 32) || (self.octets[0] == 192 && self.octets[1] == 168)
    }

    /// In 169.254.0.0/16.
    pub fn rs_ipv4_addr_is_link_local(&self) -> (r: bool)
        ensures
            r == (self.spec_octet(0) == 169 && self.spec_octet(1) == 254),
    {
        self.octets[0] == 169 && self.octets[1] == 254
    }

    /// In 224.0.0.0/4.
    pub fn rs_ipv4_addr_is_multicast(&self) -> (r: bool)
        ensures
            r == (224 <= self.spec_octet(0) < 240),
    {
        224 <= self.octets[0] && self.octets[0] < 240
    }

    pub fn rs_ipv4_addr_is_broadcast(&self) -> (r: bool)
        ensures
            r == (self.octets@ =~= seq![255u8, 255u8, 255u8, 255u8]),
    {
        let r = self.octets[0] == 255 && self.octets[1] == 255 && self.octets[2] == 255
            && self.octets[3] == 255;
        proof {
            if r {
                assert(self.octets@ =~= seq![255u8, 255u8, 255u8, 255u8]);
            }
        }
        r
    }

    /// In 192.0.2.0/24, 198.51.100.0/24 or 203.0.113.0/24.
    pub fn rs_ipv4_addr_is_documentation(&self) -> (r: bool)
        ensures
            r == ((self.spec_octet(0) == 192 && self.spec_octet(1) == 0 && self.spec_octet(2) == 2)
                || (self.spec_octet(0) == 198 && self.spec_octet(1) == 51 && self.spec_octet(2)
                == 100) || (self.spec_octet(0) == 203 && self.spec_octet(1) == 0 && self.spec_octet(
                2,
            ) == 113)),
    {
        (self.octets[0] == 192 && self.octets[1] == 0 && self.octets[2] == 2) || (self.octets[0]
            == 198 && self.octets[1] == 51 && self.octets[2] == 100) || (self.octets[0] == 203
            && self.octets[1] == 0 && self.octets[2] == 113)
    }
}

} // verus!
