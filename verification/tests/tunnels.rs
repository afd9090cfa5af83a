use bpf_progs::iptunnel::{
    _xdp_tx_iptunnel, _xdp_tx_iptunnel_dynptr, get_dport, get_dport_dynptr, tx_decision, IptnlInfo, TunnelDecision, Vip, VipTunnelMap,
    AF_INET, AF_INET6,
};
use bpf_progs::tunnel::{
    __encap_gre_none, __encap_ipip_none, __encap_udp_none, adj_room_encap_l2, decap_f, decap_ipv4, ip_ihl, mpls_label,
    DecapPlan, EncapPlan,
};

/// An IPv4 TCP packet 192.168.1.1 -> 192.168.1.2, destination port
/// `dport`, total length 40.
fn tcp4(dport: u16) -> Vec<u8> {
    let mut p = vec![0xaau8, 0xbb, 0xcc, 0xdd, 0xee, 0xff, 1, 2, 3, 4, 5, 6, 0x08, 0x00];
    p.extend_from_slice(&[0x45, 0, 0, 40, 0, 1, 0x40, 0, 0x40, 6, 0, 0, 0xc0, 0xa8, 1, 1, 0xc0, 0xa8, 1, 2]);
    p.extend_from_slice(&[0x30, 0x39]);
    p.extend_from_slice(&dport.to_be_bytes());
    p.extend_from_slice(&[0, 0, 0, 1, 0, 0, 0, 0, 0x50, 0x02, 0xff, 0xff, 0, 0, 0, 0]);
    p
}

/// The raw `skb->protocol` of IPv4.
const PROTO_IP: u32 = 0x0008;

fn outer_ip(tot: u8, proto: u8, check: [u8; 2]) -> Vec<u8> {
    vec![0x45, 0, 0, tot, 0, 1, 0x40, 0, 0x40, proto, check[0], check[1], 0xc0, 0xa8, 1, 1, 0xc0, 0xa8, 1, 2]
}

#[test]
fn small_helpers() {
    assert_eq!(ip_ihl(0x45), 5);
    assert_eq!(adj_room_encap_l2(14), 14u64 << 56);
    assert_eq!(adj_room_encap_l2(0x1ff), 0xffu64 << 56);
    // Label 1000, bottom of stack, TTL 255, stored raw.
    assert_eq!(mpls_label().to_le_bytes(), [0x00, 0x3e, 0x81, 0xff]);
}

#[test]
fn ipip_encap_of_tcp_to_port_8000() {
    let p = tcp4(8000);
    match __encap_ipip_none(PROTO_IP, &p) {
        EncapPlan::Encap { olen, flags, outer, eth_proto } => {
            assert_eq!(olen, 20);
            assert_eq!(flags, 1 | 2);
            assert_eq!(outer, outer_ip(60, 4, [0xb7, 0x69]));
            assert_eq!(eth_proto, None);
        },
        _ => panic!("expected an encapsulation"),
    }
}

#[test]
fn gre_and_udp_encap() {
    let p = tcp4(8000);
    match __encap_gre_none(PROTO_IP, &p) {
        EncapPlan::Encap { olen, flags, outer, .. } => {
            assert_eq!(olen, 24);
            assert_eq!(flags, 1 | 2 | 8);
            let mut want = outer_ip(64, 47, [0xb7, 0x3a]);
            want.extend_from_slice(&[0, 0, 0x08, 0x00]);
            assert_eq!(outer, want);
        },
        _ => panic!("expected an encapsulation"),
    }
    match __encap_udp_none(PROTO_IP, &p) {
        EncapPlan::Encap { olen, flags, outer, .. } => {
            assert_eq!(olen, 28);
            assert_eq!(flags, 1 | 2 | 16);
            let mut want = outer_ip(68, 17, [0xb7, 0x54]);
            // Source port 20000, destination 5555, length 40 + 8.
            want.extend_from_slice(&[0x4e, 0x20, 0x15, 0xb3, 0, 48, 0, 0]);
            assert_eq!(outer, want);
        },
        _ => panic!("expected an encapsulation"),
    }
}

#[test]
fn encap_passes_other_traffic() {
    assert!(matches!(__encap_ipip_none(PROTO_IP, &tcp4(80)), EncapPlan::Pass));
    assert!(matches!(__encap_ipip_none(0xdd86, &tcp4(8000)), EncapPlan::Pass));
    assert!(matches!(__encap_ipip_none(PROTO_IP, &tcp4(8000)[..40]), EncapPlan::Pass));
}

#[test]
fn decap_of_encapsulated_packets() {
    let p = tcp4(8000);
    // IP-in-IP: the 20-byte outer header goes.
    let mut ipip = p[..14].to_vec();
    ipip.extend_from_slice(&outer_ip(60, 4, [0xb7, 0x69]));
    ipip.extend_from_slice(&p[14..]);
    assert!(decap_ipv4(&ipip) == DecapPlan::Decap { olen: 20, flags: 1 | 128 });
    assert!(decap_f(PROTO_IP, &ipip) == DecapPlan::Decap { olen: 20, flags: 1 | 128 });
    // GRE carrying IPv4: outer header plus the 4-byte GRE header.
    let mut gre = p[..14].to_vec();
    gre.extend_from_slice(&outer_ip(64, 47, [0xb7, 0x3a]));
    gre.extend_from_slice(&[0, 0, 0x08, 0x00]);
    gre.extend_from_slice(&p[14..]);
    assert!(decap_ipv4(&gre) == DecapPlan::Decap { olen: 24, flags: 1 });
    // UDP to the VXLAN port: outer, UDP and VXLAN + Ethernet.
    let mut udp = p[..14].to_vec();
    udp.extend_from_slice(&outer_ip(90, 17, [0, 0]));
    udp.extend_from_slice(&[0x4e, 0x20, 0x21, 0x18, 0, 70, 0, 0]);
    udp.extend_from_slice(&[0u8; 22]);
    assert!(decap_ipv4(&udp) == DecapPlan::Decap { olen: 50, flags: 1 });
    // A plain TCP packet is left alone.
    assert!(decap_ipv4(&p) == DecapPlan::Pass);
}

fn tunnel_map() -> VipTunnelMap {
    let vip = Vip { daddr: [0x0201a8c0, 0, 0, 0], dport: 0x5000, family: AF_INET, protocol: 6 };
    let tnl = IptnlInfo {
        saddr: [0x0101010a, 0, 0, 0],
        daddr: [0x0201010a, 0, 0, 0],
        family: AF_INET,
        dmac: [0x10, 0x11, 0x12, 0x13, 0x14, 0x15],
    };
    let vip6 = Vip { daddr: [0x0201a8c0, 0, 0, 0], dport: 0x5100, family: AF_INET, protocol: 6 };
    let tnl6 = IptnlInfo { saddr: [1, 2, 3, 4], daddr: [5, 6, 7, 8], family: AF_INET6, dmac: [0; 6] };
    VipTunnelMap { entries: vec![(vip, tnl), (vip6, tnl6)] }
}

#[test]
fn transport_port_reads() {
    let p = tcp4(80);
    assert_eq!(get_dport(&p, 34, 6), 0x5000);
    assert_eq!(get_dport(&p, 34, 1), 0);
    assert_eq!(get_dport(&p[..40], 34, 6), -1);
    // the dynptr program's read: the header slice is already there
    assert_eq!(get_dport_dynptr(&p, 34, 6), 0x5000);
    assert_eq!(get_dport_dynptr(&p, 34, 17), 0x5000);
    assert_eq!(get_dport_dynptr(&p, 34, 1), 0);
    assert_eq!(get_dport_dynptr(&p[..38], 34, 6), 0x5000);
}

#[test]
fn iptunnel_decisions() {
    let m = tunnel_map();
    assert!(matches!(tx_decision(&tcp4(80), &m), TunnelDecision::Tx4 { protocol: 6, .. }));
    // A VIP whose tunnel is IPv6 but the packet IPv4: passes.
    assert!(matches!(tx_decision(&tcp4(81), &m), TunnelDecision::Pass));
    assert!(matches!(tx_decision(&tcp4(82), &m), TunnelDecision::Pass));
    assert!(matches!(tx_decision(&tcp4(80)[..20], &m), TunnelDecision::Drop));
    assert!(matches!(tx_decision(&tcp4(80)[..40], &m), TunnelDecision::Drop));
}

#[test]
fn iptunnel_wraps_in_ipv4() {
    let m = tunnel_map();
    let p = tcp4(80);
    let mut q = p.clone();
    let mut rx = vec![0u64; 256];
    rx[6] = 41;
    assert_eq!(_xdp_tx_iptunnel(&mut q, &m, &mut rx, true, 0), 3);
    let mut want = vec![0x10u8, 0x11, 0x12, 0x13, 0x14, 0x15, 0xaa, 0xbb, 0xcc, 0xdd, 0xee, 0xff, 0x08, 0x00];
    want.extend_from_slice(&[0x45, 0, 0, 60, 0, 0, 0, 0, 8, 4, 0x9c, 0xba, 10, 1, 1, 1, 10, 1, 1, 2]);
    want.extend_from_slice(&p[14..]);
    assert_eq!(q, want);
    assert_eq!(rx[6], 42);
    // Without head room: dropped, untouched, not counted.
    let mut q2 = p.clone();
    assert_eq!(_xdp_tx_iptunnel_dynptr(&mut q2, &m, &mut rx, false, 0), 1);
    assert_eq!(q2, p);
    assert_eq!(rx[6], 42);
    // No tunnel for the VIP: passes.
    let mut q3 = tcp4(82);
    assert_eq!(_xdp_tx_iptunnel(&mut q3, &m, &mut rx, true, 0), 2);
}
