//! IPv6 address values: eight 16-bit segments, classification predicates.
//! Pure and immutable; nothing here touches a network.

use vstd::prelude::*;
use crate::ip4::RsIpv4Addr;

verus! {

/// An IPv6 address, as its eight 16-bit segments in network order.
#[derive(Clone, Copy, Debug, PartialEq, Eq)]
pub struct RsIpv6Addr {
    pub segments: [u16; 8],
}

impl RsIpv6Addr {
    pub open spec fn spec_segment(&self, i: int) -> u16 {
        self.segments@[i]
    }

    /// The address maps an IPv4 address: `::ffff:a.b.c.d`.
    pub open spec fn spec_is_ipv4_mapped(&self) -> bool {
        self.segments@[0] == 0 && self.segments@[1] == 0 && self.segments@[2] == 0
            && self.segments@[3] == 0 && self.segments@[4] == 0 && self.segments@[5] == 0xffff
    }

    /// The IPv4 address a mapped address carries in its last two segments.
    pub open spec fn spec_mapped_octets(&self) -> Seq<u8> {
        seq![
            (self.segments@[6] >> 8) as u8,
            (self.segments@[6] & 0xff) as u8,
            (self.segments@[7] >> 8) as u8,
            (self.segments@[7] & 0xff) as u8,
        ]
    }
}

pub fn rs_ipv6_addr_new(
    a: u16,
    b: u16,
    c: u16,
    d: u16,
    e: u16,
    f: u16,
    g: u16,
    h: u16,
) -> (r: RsIpv6Addr)
    ensures
        r.segments@ =~= seq![a, b, c, d, e, f, g, h],
{
    RsIpv6Addr { segments: [a, b, c, d, e, f, g, h] }
}

pub fn rs_ipv6_addr_localhost() -> (r: RsIpv6Addr)
    ensures
        r.segments@ =~= seq![0u16, 0u16, 0u16, 0u16, 0u16, 0u16, 0u16, 1u16],
{
    RsIpv6Addr { segments: [0, 0, 0, 0, 0, 0, 0, 1] }
}

pub fn rs_ipv6_addr_unspecified() -> (r: RsIpv6Addr)
    ensures
        r.segments@ =~= seq![0u16, 0u16, 0u16, 0u16, 0u16, 0u16, 0u16, 0u16],
{
    RsIpv6Addr { segments: [0, 0, 0, 0, 0, 0, 0, 0] }
}

pub fn rs_ipv6_addr_from_segments(segments: [u16; 8]) -> (r: RsIpv6Addr)
    ensures
        r.segments@ == segments@,
{
    RsIpv6Addr { segments }
}

/// The address whose 128 bits are `high` followed by `low`.
pub fn rs_ipv6_addr_from_bits(high: u64, low: u64) -> (r: RsIpv6Addr)
    ensures
        r.segments@ =~= seq![
            (high >> 48) as u16,
            ((high >> 32) & 0xffff) as u16,
            ((high >> 16) & 0xffff) as u16,
            (high & 0xffff) as u16,
            (low >> 48) as u16,
            ((low >> 32) & 0xffff) as u16,
            ((low >> 16) & 0xffff) as u16,
            (low & 0xffff) as u16,
        ],
{
    RsIpv6Addr {
        segments: [
            (high >> 48) as u16,
            ((high >> 32) & 0xffff) as u16,
            ((high >> 16) & 0xffff) as u16,
            (high & 0xffff) as u16,
            (low >> 48) as u16,
            ((low >> 32) & 0xffff) as u16,
            ((low >> 16) & 0xffff) as u16,
            (low & 0xffff) as u16,
        ],
    }
}

/// The address whose sixteen octets are given in network order.
pub fn rs_ipv6_addr_from_octets(octets: [u8; 16]) -> (r: RsIpv6Addr)
    ensures
        forall|i: int|
            0 <= i < 8 ==> r.segments@[i] == octets@[2 * i] * 0x100 + octets@[2 * i + 1],
{
    let mut segments: [u16; 8] = [0, 0, 0, 0, 0, 0, 0, 0];
    let mut i: usize = 0;
    while i < 8
        invariant
            i <= 8,
            forall|j: int|
                0 <= j < i ==> segments@[j] == octets@[2 * j] * 0x100 + octets@[2 * j + 1],
        decreases 8 - i,
    {
        segments[i] = (octets[2 * i] as u16) << 8 | (octets[2 * i + 1] as u16);
        proof {
            let a = octets@[2 * i];
            let b = octets@[2 * i + 1];
            assert((a as u16) << 8 | (b as u16) == a * 0x100 + b) by (bit_vector);
        }
        i += 1;
    }
    RsIpv6Addr { segments }
}

pub fn rs_ipv6_addr_destroy(addr: RsIpv6Addr) {
    let _ = addr;
}

impl RsIpv6Addr {
    pub fn rs_ipv6_addr_segments(&self) -> (r: [u16; 8])
        ensures
            r@ == self.segments@,
    {
        self.segments
    }

    /// The 128 bits of the address as the pair (high, low).
    pub fn rs_ipv6_addr_to_bits_pair(&self) -> (r: [u64; 2])
        ensures
            r@[0] == self.segments@[0] * 0x1_0000_0000_0000 + self.segments@[1] * 0x1_0000_0000
                + self.segments@[2] * 0x1_0000 + self.segments@[3],
            r@[1] == self.segments@[4] * 0x1_0000_0000_0000 + self.segments@[5] * 0x1_0000_0000
                + self.segments@[6] * 0x1_0000 + self.segments@[7],
    {
        let high = (self.segments[0] as u64) << 48 | (self.segments[1] as u64) << 32
            | (self.segments[2] as u64) << 16 | (self.segments[3] as u64);
        let low = (self.segments[4] as u64) << 48 | (self.segments[5] as u64) << 32
            | (self.segments[6] as u64) << 16 | (self.segments[7] as u64);
        proof {
            let s0 = self.segments@[0];
            let s1 = self.segments@[1];
            let s2 = self.segments@[2];
            let s3 = self.segments@[3];
            assert((s0 as u64) << 48 | (s1 as u64) << 32 | (s2 as u64) << 16 | (s3 as u64) == s0
                * 0x1_0000_0000_0000 + s1 * 0x1_0000_0000 + s2 * 0x1_0000 + s3) by (bit_vector);
            let s4 = self.segments@[4];
            let s5 = self.segments@[5];
            let s6 = self.segments@[6];
            let s7 = self.segments@[7];
            assert((s4 as u64) << 48 | (s5 as u64) << 32 | (s6 as u64) << 16 | (s7 as u64) == s4
                * 0x1_0000_0000_0000 + s5 * 0x1_0000_0000 + s6 * 0x1_0000 + s7) by (bit_vector);
        }
        [high, low]
    }

    /// The sixteen octets of the address in network order.
    pub fn rs_ipv6_addr_octets(&self) -> (r: [u8; 16])
        ensures
            forall|i: int|
                0 <= i < 8 ==> r@[2 * i] == (self.segments@[i] >> 8) as u8 && r@[2 * i + 1] == (
                self.segments@[i] & 0xff) as u8,
    {
        let mut octets: [u8; 16] = [0, 0, 0, 0, 0, 0, 0, 0, 0, 0, 0, 0, 0, 0, 0, 0];
        let mut i: usize = 0;
        while i < 8
            invariant
                i <= 8,
                forall|j: int|
                    0 <= j < i ==> octets@[2 * j] == (self.segments@[j] >> 8) as u8 && octets@[2 * j
                        + 1] == (self.segments@[j] & 0xff) as u8,
            decreases 8 - i,
        {
            octets[2 * i] = (self.segments[i] >> 8) as u8;
            octets[2 * i + 1] = (self.segments[i] & 0xff) as u8;
            i += 1;
        }
        octets
    }

    pub fn rs_ipv6_addr_is_unspecified(&self) -> (r: bool)
        ensures
            r == (forall|i: int| 0 <= i < 8 ==> self.segments@[i] == 0),
    {
        let mut i: usize = 0;
        while i < 8
            invariant
                i <= 8,
                forall|j: int| 0 <= j < i ==> self.segments@[j] == 0,
            decreases 8 - i,
        {
            if self.segments[i] != 0 {
                return false;
            }
            i += 1;
        }
        true
    }

    /// The loopback address `::1`.
    pub fn rs_ipv6_addr_is_loopback(&self) -> (r: bool)
        ensures
            r == (self.segments@ =~= seq![0u16, 0u16, 0u16, 0u16, 0u16, 0u16, 0u16, 1u16]),
    {
        let r = self.segments[0] == 0 && self.segments[1] == 0 && self.segments[2] == 0
            && self.segments[3] == 0 && self.segments[4] == 0 && self.segments[5] == 0
            && self.segments[6] == 0 && self.segments[7] == 1;
        proof {
            if r {
                assert(self.segments@ =~= seq![0u16, 0u16, 0u16, 0u16, 0u16, 0u16, 0u16, 1u16]);
            }
        }
        r
    }

    /// In fe80::/10.
    pub fn rs_ipv6_addr_is_unicast_link_local(&self) -> (r: bool)
        ensures
            r == (self.spec_segment(0) & 0xffc0 == 0xfe80),
    {
        self.segments[0] & 0xffc0 == 0xfe80
    }

    /// In fc00::/7.
    pub fn rs_ipv6_addr_is_unique_local(&self) -> (r: bool)
        ensures
            r == (self.spec_segment(0) & 0xfe00 == 0xfc00),
    {
        self.segments[0] & 0xfe00 == 0xfc00
    }

    /// In ff00::/8.
    pub fn rs_ipv6_addr_is_multicast(&self) -> (r: bool)
        ensures
            r == (self.spec_segment(0) & 0xff00 == 0xff00),
    {
        self.segments[0] & 0xff00 == 0xff00
    }

    /// Whether the address is `::ffff:a.b.c.d` for some IPv4 address.
    pub fn rs_ipv6_addr_is_ipv4_mapped(&self) -> (r: bool)
        ensures
            r == self.spec_is_ipv4_mapped(),
    {
        self.segments[0] == 0 && self.segments[1] == 0 && self.segments[2] == 0 && self.segments[3]
            == 0 && self.segments[4] == 0 && self.segments[5] == 0xffff
    }

    /// An IPv4-mapped address as the IPv4 address it maps, lifted to
    /// either-family form; any other address unchanged.
    pub fn rs_ipv6_addr_to_canonical(&self) -> (r: crate::ipaddr::RsIpAddr)
        ensures
            self.spec_is_ipv4_mapped() ==> (r matches crate::ipaddr::RsIpAddr::V4 { addr: v4 }
                && v4.octets@ == self.spec_mapped_octets()),
            !self.spec_is_ipv4_mapped() ==> r == (crate::ipaddr::RsIpAddr::V6 { addr: *self }),
    {
        let ip = crate::ipaddr::RsIpAddr::V6 { addr: *self };
        ip.rs_ip_addr_to_canonical()
    }

    /// The IPv4 address carried by an IPv4-mapped address.
    pub fn mapped_ipv4(&self) -> (r: RsIpv4Addr)
        requires
            self.spec_is_ipv4_mapped(),
        ensures
            r.octets@ == self.spec_mapped_octets(),
    {
        let r = RsIpv4Addr {
            octets: [
                (self.segments[6] >> 8) as u8,
                (self.segments[6] & 0xff) as u8,
                (self.segments[7] >> 8) as u8,
                (self.segments[7] & 0xff) as u8,
            ],
        };
        proof {
            assert(r.octets@ =~= self.spec_mapped_octets());
        }
        r
    }
}

} // verus!
