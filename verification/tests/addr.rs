use gain_listener::{pack, unpack, PackedAddr, PeerAddr};

#[test]
fn v4_round_trip() {
    let addr = PeerAddr::V4 { ip: 0x7f000001, port: 8080 };
    let p = pack(&addr);
    assert_eq!(p, PackedAddr { a: 0x7f000001, b: 0, c: 0, d: 0, port: 8080 });
    assert_eq!(unpack(&p), addr);
}

#[test]
fn v4_round_trip_extremes() {
    for ip in [0u32, 1, 0xffffffff] {
        for port in [0u16, 1, 65535] {
            let addr = PeerAddr::V4 { ip, port };
            assert_eq!(unpack(&pack(&addr)), addr);
        }
    }
}

#[test]
fn v6_round_trip() {
    let addr = PeerAddr::V6 {
        g0: 0x2001,
        g1: 0x0db8,
        g2: 0x85a3,
        g3: 0x0000,
        g4: 0x0000,
        g5: 0x8a2e,
        g6: 0x0370,
        g7: 0x7334,
        port: 443,
    };
    let p = pack(&addr);
    assert_eq!(
        p,
        PackedAddr { a: 0x20010db8, b: 0x85a30000, c: 0x00008a2e, d: 0x03707334, port: 443 }
    );
    assert_eq!(unpack(&p), addr);
}

#[test]
fn v6_round_trip_loopback() {
    // ::1 keeps a nonzero last group, so it survives the round trip.
    let addr = PeerAddr::V6 {
        g0: 0,
        g1: 0,
        g2: 0,
        g3: 0,
        g4: 0,
        g5: 0,
        g6: 0,
        g7: 1,
        port: 22,
    };
    assert_eq!(unpack(&pack(&addr)), addr);
}

#[test]
fn v6_with_zero_tail_decodes_as_v4() {
    // Known limitation of the wire heuristic: an IPv6 address whose
    // last six groups are all zero is indistinguishable from IPv4.
    let addr = PeerAddr::V6 {
        g0: 0x2001,
        g1: 0x0db8,
        g2: 0,
        g3: 0,
        g4: 0,
        g5: 0,
        g6: 0,
        g7: 0,
        port: 80,
    };
    let p = pack(&addr);
    assert_eq!(unpack(&p), PeerAddr::V4 { ip: 0x20010db8, port: 80 });
}

#[test]
fn unpack_v6_group_order() {
    // Each word contributes its high 16 bits and then its low 16 bits.
    let p = PackedAddr { a: 0x00010002, b: 0x00030004, c: 0x00050006, d: 0x00070008, port: 7 };
    assert_eq!(
        unpack(&p),
        PeerAddr::V6 { g0: 1, g1: 2, g2: 3, g3: 4, g4: 5, g5: 6, g6: 7, g7: 8, port: 7 }
    );
}
