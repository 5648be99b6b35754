//! IPv4 addresses as plain octets, and the byte-order conversions the
//! transport needs: the platform echo primitive takes the destination as a
//! 32-bit value in network byte order, and the resolver hands the engine the
//! looked-up address in the same form.

use vstd::prelude::*;

verus! {

/// An IPv4 address held as four plain octets: `a.b.c.d`.
#[derive(Clone, Copy, Debug, PartialEq, Eq, Structural)]
pub struct Ipv4Address {
    pub a: u8,
    pub b: u8,
    pub c: u8,
    pub d: u8,
}

impl Ipv4Address {
    /// The address as a 32-bit value whose least significant byte is the
    /// first octet: the network-byte-order encoding as it sits in memory on
    /// a little-endian machine, which is what the transport expects.
    pub open spec fn spec_network_order_u32(self) -> u32 {
        (self.a + self.b * 0x100 + self.c * 0x1_0000 + self.d * 0x100_0000) as u32
    }

    /// The address whose network-byte-order encoding is `n`.
    pub open spec fn spec_from_network_order(n: u32) -> Ipv4Address {
        Ipv4Address {
            a: (n % 0x100) as u8,
            b: ((n / 0x100) % 0x100) as u8,
            c: ((n / 0x1_0000) % 0x100) as u8,
            d: (n / 0x100_0000) as u8,
        }
    }

    /// Encode the address for the transport.
    pub fn to_network_order(self) -> (n: u32)
        ensures
            n == self.spec_network_order_u32(),
    {
        self.a as u32 + (self.b as u32) * 0x100 + (self.c as u32) * 0x1_0000 + (self.d as u32)
            * 0x100_0000
    }

    /// Decode an address handed back by the resolver.
    pub fn from_network_order(n: u32) -> (r: Ipv4Address)
        ensures
            r == Self::spec_from_network_order(n),
    {
        Ipv4Address {
            a: (n % 0x100) as u8,
            b: ((n / 0x100) % 0x100) as u8,
            c: ((n / 0x1_0000) % 0x100) as u8,
            d: (n / 0x100_0000) as u8,
        }
    }

    /// Law: encoding an address and decoding the result gives the address
    /// back, and decoding then encoding gives the 32-bit value back.
    pub proof fn lemma_network_order_round_trip(addr: Ipv4Address, n: u32)
        ensures
            Self::spec_from_network_order(addr.spec_network_order_u32()) == addr,
            Self::spec_from_network_order(n).spec_network_order_u32() == n,
    {
        let a = addr.a;
        let b = addr.b;
        let c = addr.c;
        let d = addr.d;
        let e = addr.spec_network_order_u32();
        assert(e == (a + b * 0x100 + c * 0x1_0000 + d * 0x100_0000) as u32);
        assert({
            let e2 = (a + b * 0x100 + c * 0x1_0000 + d * 0x100_0000) as u32;
            e2 % 0x100 == a && (e2 / 0x100) % 0x100 == b && (e2 / 0x1_0000) % 0x100 == c && e2
                / 0x100_0000 == d
        }) by (bit_vector);
        assert((n % 0x100) + ((n / 0x100) % 0x100) * 0x100 + ((n / 0x1_0000) % 0x100) * 0x1_0000 + (
        n / 0x100_0000) * 0x100_0000 == n) by (bit_vector);
    }
}

} // verus!
