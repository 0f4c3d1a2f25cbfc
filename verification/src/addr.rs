//! Encoding of IP addresses into the binary keys the native engine expects.
//!
//! An IPv4 address becomes one 32-bit integer with the four address bytes
//! packed in network byte order (most significant byte first).  An IPv6
//! address becomes a 16-byte buffer in which every 16-bit address group is
//! written big-endian, high byte then low byte, in group order.  Encoding
//! is total over both families.

use vstd::prelude::*;

verus! {

/// An IP address of either family, carried as its standard address values:
/// four bytes for IPv4, eight 16-bit groups for IPv6.
#[derive(Clone, Copy, Debug, PartialEq, Eq)]
pub enum NetworkAddress {
    V4([u8; 4]),
    V6([u16; 8]),
}

/// The binary key handed to the native lookup calls: a packed 32-bit
/// integer for IPv4, a 16-byte big-endian buffer for IPv6.
#[derive(Clone, Copy, Debug, PartialEq, Eq)]
pub enum EncodedAddress {
    V4(u32),
    V6([u8; 16]),
}

/// The packed network-byte-order value of four IPv4 address bytes.
pub open spec fn spec_encode_v4(b: Seq<u8>) -> int
    recommends
        b.len() == 4,
{
    b[0] * 0x100_0000 + b[1] * 0x1_0000 + b[2] * 0x100 + b[3]
}

/// The 16-byte big-endian image of eight IPv6 address groups: byte `2*i`
/// holds the high byte of group `i`, byte `2*i + 1` its low byte.
pub open spec fn spec_encode_v6(g: Seq<u16>) -> Seq<u8>
    recommends
        g.len() == 8,
{
    Seq::new(16, |i: int| if i % 2 == 0 { (g[i / 2] / 0x100) as u8 } else { (g[i / 2] % 0x100) as u8 })
}

impl NetworkAddress {
    /// Encodes the address into the binary form required by the native
    /// lookup calls, per family.
    pub fn encode(&self) -> (r: EncodedAddress)
        ensures
            match (*self, r) {
                (NetworkAddress::V4(b), EncodedAddress::V4(v)) => v == spec_encode_v4(b@),
                (NetworkAddress::V6(g), EncodedAddress::V6(e)) => e@ == spec_encode_v6(g@),
                _ => false,
            },
    {
        match self {
            NetworkAddress::V4(b) => {
                let v: u32 = (b[0] as u32) * 0x100_0000 + (b[1] as u32) * 0x1_0000 + (b[2] as u32)
                    * 0x100 + (b[3] as u32);
                EncodedAddress::V4(v)
            },
            NetworkAddress::V6(g) => {
                let e: [u8; 16] = [
                    (g[0] / 0x100) as u8,
                    (g[0] % 0x100) as u8,
                    (g[1] / 0x100) as u8,
                    (g[1] % 0x100) as u8,
                    (g[2] / 0x100) as u8,
                    (g[2] % 0x100) as u8,
                    (g[3] / 0x100) as u8,
                    (g[3] % 0x100) as u8,
                    (g[4] / 0x100) as u8,
                    (g[4] % 0x100) as u8,
                    (g[5] / 0x100) as u8,
                    (g[5] % 0x100) as u8,
                    (g[6] / 0x100) as u8,
                    (g[6] % 0x100) as u8,
                    (g[7] / 0x100) as u8,
                    (g[7] % 0x100) as u8,
                ];
                proof {
                    assert(e@ =~= spec_encode_v6(g@));
                }
                EncodedAddress::V6(e)
            },
        }
    }
}

/// The IPv4 packing loses nothing: each of the four address bytes is
/// recovered from the packed value by shifting in network byte order.
pub proof fn lemma_encode_v4_recovers_bytes(b: Seq<u8>)
    requires
        b.len() == 4,
    ensures
        spec_encode_v4(b) / 0x100_0000 == b[0],
        spec_encode_v4(b) / 0x1_0000 % 0x100 == b[1],
        spec_encode_v4(b) / 0x100 % 0x100 == b[2],
        spec_encode_v4(b) % 0x100 == b[3],
        0 <= spec_encode_v4(b) <= u32::MAX,
{
    let v = spec_encode_v4(b);
    assert(v / 0x100_0000 == b[0] && v / 0x1_0000 % 0x100 == b[1] && v / 0x100 % 0x100 == b[2]
        && v % 0x100 == b[3]) by (nonlinear_arith)
        requires
            v == b[0] * 0x100_0000 + b[1] * 0x1_0000 + b[2] * 0x100 + b[3],
            0 <= b[0] < 0x100,
            0 <= b[1] < 0x100,
            0 <= b[2] < 0x100,
            0 <= b[3] < 0x100,
    ;
}

/// Two IPv4 addresses with the same packed value are the same address.
pub proof fn lemma_encode_v4_injective(a: Seq<u8>, b: Seq<u8>)
    requires
        a.len() == 4,
        b.len() == 4,
        spec_encode_v4(a) == spec_encode_v4(b),
    ensures
        a =~= b,
{
    lemma_encode_v4_recovers_bytes(a);
    lemma_encode_v4_recovers_bytes(b);
}

/// The IPv6 encoding loses nothing: each 16-bit group is recovered from
/// its high and low bytes in the encoded buffer.
pub proof fn lemma_encode_v6_recovers_groups(g: Seq<u16>)
    requires
        g.len() == 8,
    ensures
        forall|i: int|
            0 <= i < 8 ==> spec_encode_v6(g)[2 * i] * 0x100 + spec_encode_v6(g)[2 * i + 1] == g[i],
{
    assert forall|i: int| 0 <= i < 8 implies spec_encode_v6(g)[2 * i] * 0x100 + spec_encode_v6(g)[2
        * i + 1] == g[i] by {
        assert((2 * i) / 2 == i && (2 * i + 1) / 2 == i);
        assert(g[i] / 0x100 * 0x100 + g[i] % 0x100 == g[i]);
    }
}

/// Two IPv6 addresses with the same encoded buffer are the same address.
pub proof fn lemma_encode_v6_injective(a: Seq<u16>, b: Seq<u16>)
    requires
        a.len() == 8,
        b.len() == 8,
        spec_encode_v6(a) =~= spec_encode_v6(b),
    ensures
        a =~= b,
{
    lemma_encode_v6_recovers_groups(a);
    lemma_encode_v6_recovers_groups(b);
    assert forall|i: int| 0 <= i < 8 implies a[i] == b[i] by {
        assert(spec_encode_v6(a)[2 * i] == spec_encode_v6(b)[2 * i]);
        assert(spec_encode_v6(a)[2 * i + 1] == spec_encode_v6(b)[2 * i + 1]);
    }
}

} // verus!
