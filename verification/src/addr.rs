//! Address codec: a peer socket address is carried on the wire as four
//! 32-bit words plus a port.
//!
//! Decode rule: if the last three words are all zero, the first word is
//! an IPv4 address; otherwise the four words hold the eight 16-bit
//! groups of an IPv6 address, each word contributing its high 16 bits
//! and then its low 16 bits.  The rule is a heuristic, not a tagged
//! format: an IPv6 address whose last six groups are all zero cannot be
//! told apart from an IPv4 address and decodes as IPv4.

use vstd::prelude::*;

verus! {

/// A peer socket address, as this protocol can represent one.
#[derive(Clone, Copy, PartialEq, Eq, Structural, Debug)]
pub enum PeerAddr {
    /// An IPv4 address (32 bits) and port.
    V4 { ip: u32, port: u16 },
    /// An IPv6 address as its eight 16-bit groups, in order, and port.
    /// Scope and flow information are not carried.
    V6 { g0: u16, g1: u16, g2: u16, g3: u16, g4: u16, g5: u16, g6: u16, g7: u16, port: u16 },
}

/// The wire representation of a peer address.
#[derive(Clone, Copy, PartialEq, Eq, Structural, Debug)]
pub struct PackedAddr {
    pub a: u32,
    pub b: u32,
    pub c: u32,
    pub d: u32,
    pub port: u16,
}

/// The 32-bit word holding `hi` in its high 16 bits and `lo` in its low
/// 16 bits.
pub open spec fn join32(hi: u16, lo: u16) -> int {
    65536 * hi + lo
}

/// The high 16 bits of a 32-bit word.
pub open spec fn hi16(w: u32) -> u16 {
    (w / 65536) as u16
}

/// The low 16 bits of a 32-bit word.
pub open spec fn lo16(w: u32) -> u16 {
    (w % 65536) as u16
}

/// How an address is packed into four words and a port.
pub open spec fn spec_pack(addr: PeerAddr) -> PackedAddr {
    match addr {
        PeerAddr::V4 { ip, port } => PackedAddr { a: ip, b: 0, c: 0, d: 0, port },
        PeerAddr::V6 { g0, g1, g2, g3, g4, g5, g6, g7, port } => PackedAddr {
            a: join32(g0, g1) as u32,
            b: join32(g2, g3) as u32,
            c: join32(g4, g5) as u32,
            d: join32(g6, g7) as u32,
            port,
        },
    }
}

/// How four words and a port are read back as an address.
pub open spec fn spec_unpack(p: PackedAddr) -> PeerAddr {
    if p.b == 0 && p.c == 0 && p.d == 0 {
        PeerAddr::V4 { ip: p.a, port: p.port }
    } else {
        PeerAddr::V6 {
            g0: hi16(p.a),
            g1: lo16(p.a),
            g2: hi16(p.b),
            g3: lo16(p.b),
            g4: hi16(p.c),
            g5: lo16(p.c),
            g6: hi16(p.d),
            g7: lo16(p.d),
            port: p.port,
        }
    }
}

/// Pack an address for the wire.
pub fn pack(addr: &PeerAddr) -> (p: PackedAddr)
    ensures
        p == spec_pack(*addr),
{
    match *addr {
        PeerAddr::V4 { ip, port } => PackedAddr { a: ip, b: 0, c: 0, d: 0, port },
        PeerAddr::V6 { g0, g1, g2, g3, g4, g5, g6, g7, port } => PackedAddr {
            a: 65536 * (g0 as u32) + (g1 as u32),
            b: 65536 * (g2 as u32) + (g3 as u32),
            c: 65536 * (g4 as u32) + (g5 as u32),
            d: 65536 * (g6 as u32) + (g7 as u32),
            port,
        },
    }
}

/// Split a 32-bit word into its high and low 16 bits.
fn split32(w: u32) -> (r: (u16, u16))
    ensures
        r.0 == hi16(w),
        r.1 == lo16(w),
{
    proof {
        vstd::arithmetic::div_mod::lemma_div_is_ordered(w as int, 0xffffffff, 65536);
    }
    ((w / 65536) as u16, (w % 65536) as u16)
}

/// Reconstruct an address from the wire representation.
pub fn unpack(p: &PackedAddr) -> (addr: PeerAddr)
    ensures
        addr == spec_unpack(*p),
{
    if p.b == 0 && p.c == 0 && p.d == 0 {
        PeerAddr::V4 { ip: p.a, port: p.port }
    } else {
        let (g0, g1) = split32(p.a);
        let (g2, g3) = split32(p.b);
        let (g4, g5) = split32(p.c);
        let (g6, g7) = split32(p.d);
        PeerAddr::V6 { g0, g1, g2, g3, g4, g5, g6, g7, port: p.port }
    }
}

/// Joining two 16-bit groups into a word and splitting it again gives
/// the groups back, and the word is zero exactly when both groups are.
proof fn lemma_join_split(hi: u16, lo: u16)
    ensures
        hi16(join32(hi, lo) as u32) == hi,
        lo16(join32(hi, lo) as u32) == lo,
        (join32(hi, lo) == 0 <==> hi == 0 && lo == 0),
{
    vstd::arithmetic::div_mod::lemma_fundamental_div_mod_converse(
        join32(hi, lo),
        65536,
        hi as int,
        lo as int,
    );
}

/// Round trip: any IPv4 address and port survive packing and unpacking
/// unchanged.
pub proof fn lemma_pack_unpack_v4(ip: u32, port: u16)
    ensures
        spec_unpack(spec_pack(PeerAddr::V4 { ip, port })) == (PeerAddr::V4 { ip, port }),
{
}

/// Round trip: any IPv6 address whose last six groups are not all zero
/// survives packing and unpacking unchanged, together with its port.
/// (One with all of `g2`..`g7` zero is indistinguishable on the wire
/// from an IPv4 address and is excluded.)
pub proof fn lemma_pack_unpack_v6(
    g0: u16,
    g1: u16,
    g2: u16,
    g3: u16,
    g4: u16,
    g5: u16,
    g6: u16,
    g7: u16,
    port: u16,
)
    requires
        !(g2 == 0 && g3 == 0 && g4 == 0 && g5 == 0 && g6 == 0 && g7 == 0),
    ensures
        spec_unpack(spec_pack(PeerAddr::V6 { g0, g1, g2, g3, g4, g5, g6, g7, port }))
            == (PeerAddr::V6 { g0, g1, g2, g3, g4, g5, g6, g7, port }),
{
    lemma_join_split(g0, g1);
    lemma_join_split(g2, g3);
    lemma_join_split(g4, g5);
    lemma_join_split(g6, g7);
}

} // verus!
