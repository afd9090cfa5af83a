use bpf_progs::tunnel::{
    __encap_gre_eth, __encap_gre_mpls, __encap_ip6gre_none, __encap_ip6tnl_none, __encap_ip6udp_none,
    __encap_ip6vxlan_eth, __encap_ipip6_none, __encap_sit_none, __encap_udp_mpls, __encap_vxlan_eth, decap_f,
    decap_ipv4, decap_ipv6, decap_verdict, encap_verdict, DecapPlan, EncapAnswers, EncapPlan, TunnelCall,
};

const PROTO_IP: u32 = 0x0008;
const PROTO_IPV6: u32 = 0xdd86;

/// An IPv4 TCP packet to port 8000, total length 40.
fn tcp4() -> Vec<u8> {
    let mut p = vec![0xaau8, 0xbb, 0xcc, 0xdd, 0xee, 0xff, 1, 2, 3, 4, 5, 6, 0x08, 0x00];
    p.extend_from_slice(&[0x45, 0, 0, 40, 0, 1, 0x40, 0, 0x40, 6, 0, 0, 0xc0, 0xa8, 1, 1, 0xc0, 0xa8, 1, 2]);
    p.extend_from_slice(&[0x30, 0x39, 0x1f, 0x40]);
    p.extend_from_slice(&[0, 0, 0, 1, 0, 0, 0, 0, 0x50, 0x02, 0xff, 0xff, 0, 0, 0, 0]);
    p
}

/// An IPv6 TCP packet to port 8000, payload length 20.
fn tcp6() -> Vec<u8> {
    let mut p = vec![0xaau8, 0xbb, 0xcc, 0xdd, 0xee, 0xff, 1, 2, 3, 4, 5, 6, 0x86, 0xdd];
    p.extend_from_slice(&[0x60, 0, 0, 0, 0, 20, 6, 64]);
    p.extend_from_slice(&[0xfd, 0, 0, 0, 0, 0, 0, 0, 0, 0, 0, 0, 0, 0, 0, 1]);
    p.extend_from_slice(&[0xfd, 0, 0, 0, 0, 0, 0, 0, 0, 0, 0, 0, 0, 0, 0, 2]);
    p.extend_from_slice(&[0x30, 0x39, 0x1f, 0x40]);
    p.extend_from_slice(&[0, 0, 0, 1, 0, 0, 0, 0, 0x50, 0x02, 0xff, 0xff, 0, 0, 0, 0]);
    p
}

/// The packet as the kernel leaves it after the planned encapsulation:
/// the outer headers after the MAC header.
fn apply(p: &[u8], plan: &EncapPlan) -> Vec<u8> {
    match plan {
        EncapPlan::Encap { olen, outer, .. } => {
            assert_eq!(*olen as usize, outer.len());
            let mut q = p[..14].to_vec();
            q.extend_from_slice(outer);
            q.extend_from_slice(&p[14..]);
            q
        },
        _ => panic!("expected an encapsulation"),
    }
}

#[test]
fn gre_with_mpls_and_ethernet() {
    let p = tcp4();
    let mpls = __encap_gre_mpls(PROTO_IP, &p);
    match &mpls {
        EncapPlan::Encap { olen, outer, .. } => {
            assert_eq!(*olen, 28);
            assert_eq!(&outer[20..24], &[0, 0, 0x88, 0x47]);
            assert_eq!(&outer[24..28], &[0x00, 0x3e, 0x81, 0xff]);
        },
        _ => panic!("expected an encapsulation"),
    }
    let eth = __encap_gre_eth(PROTO_IP, &p);
    match &eth {
        EncapPlan::Encap { olen, outer, flags, .. } => {
            assert_eq!(*olen, 38);
            assert_eq!(&outer[20..24], &[0, 0, 0x65, 0x58]);
            assert_eq!(&outer[24..38], &p[..14]);
            assert_eq!(flags >> 56, 14);
        },
        _ => panic!("expected an encapsulation"),
    }
    let q = apply(&p, &eth);
    assert!(decap_ipv4(&q) == DecapPlan::Decap { olen: 38, flags: 1 });
}

#[test]
fn udp_with_mpls_and_vxlan() {
    let p = tcp4();
    match __encap_udp_mpls(PROTO_IP, &p) {
        EncapPlan::Encap { olen, outer, .. } => {
            assert_eq!(olen, 32);
            // UDP destination port 6635 (MPLS over UDP), length 40 + 8 + 4.
            assert_eq!(&outer[22..26], &[0x19, 0xeb, 0, 52]);
        },
        _ => panic!("expected an encapsulation"),
    }
    let vx = __encap_vxlan_eth(PROTO_IP, &p);
    match &vx {
        EncapPlan::Encap { olen, outer, .. } => {
            assert_eq!(*olen, 50);
            assert_eq!(&outer[22..24], &[0x21, 0x18]);
            assert_eq!(&outer[28..36], &[0x08, 0, 0, 0, 0, 0, 1, 0]);
        },
        _ => panic!("expected an encapsulation"),
    }
    let q = apply(&p, &vx);
    assert!(decap_f(PROTO_IP, &q) == DecapPlan::Decap { olen: 50, flags: 1 });
}

#[test]
fn ipv6_outer_tunnels() {
    let p = tcp6();
    let tnl = __encap_ip6tnl_none(PROTO_IPV6, &p);
    match &tnl {
        EncapPlan::Encap { olen, outer, .. } => {
            assert_eq!(*olen, 40);
            // payload length 20 + 40, next header IPv6
            assert_eq!(&outer[4..7], &[0, 60, 41]);
        },
        _ => panic!("expected an encapsulation"),
    }
    let q = apply(&p, &tnl);
    assert!(matches!(decap_ipv6(&q), DecapPlan::Decap { olen: 40, .. }));
    let gre = __encap_ip6gre_none(PROTO_IPV6, &p);
    match &gre {
        EncapPlan::Encap { olen, outer, .. } => {
            assert_eq!(*olen, 44);
            assert_eq!(&outer[40..44], &[0, 0, 0x86, 0xdd]);
        },
        _ => panic!("expected an encapsulation"),
    }
    match __encap_ip6udp_none(PROTO_IPV6, &p) {
        EncapPlan::Encap { olen, outer, .. } => {
            assert_eq!(olen, 48);
            assert_eq!(&outer[40..46], &[0x4e, 0x20, 0x15, 0xb3, 0, 68]);
        },
        _ => panic!("expected an encapsulation"),
    }
    match __encap_ip6vxlan_eth(PROTO_IPV6, &p) {
        EncapPlan::Encap { olen, .. } => assert_eq!(olen, 70),
        _ => panic!("expected an encapsulation"),
    }
    // an IPv4 packet is not for these tunnels
    assert!(matches!(__encap_ip6tnl_none(PROTO_IP, &tcp4()), EncapPlan::Pass));
}

#[test]
fn mixed_family_tunnels() {
    // IPv6 in IPv4 (SIT): the outer IPv4 header is built from the IPv6 one.
    let p6 = tcp6();
    match __encap_sit_none(PROTO_IPV6, &p6) {
        EncapPlan::Encap { olen, outer, eth_proto, .. } => {
            assert_eq!(olen, 20);
            assert_eq!(outer[9], 41);
            // total length: 40 + 20 (inner) + 20 (outer)
            assert_eq!(&outer[2..4], &[0, 80]);
            assert_eq!(eth_proto, Some(0x0800));
        },
        _ => panic!("expected an encapsulation"),
    }
    // IPv4 in IPv6.
    let p4 = tcp4();
    match __encap_ipip6_none(PROTO_IP, &p4) {
        EncapPlan::Encap { olen, outer, eth_proto, .. } => {
            assert_eq!(olen, 40);
            assert_eq!(outer[0], 0x60);
            assert_eq!(outer[6], 4);
            assert_eq!(&outer[8..10], &[0, 0xfd]);
            assert_eq!(outer[23], 1);
            assert_eq!(outer[39], 2);
            assert_eq!(eth_proto, Some(0x86dd));
        },
        _ => panic!("expected an encapsulation"),
    }
}

fn ok_answers() -> EncapAnswers {
    EncapAnswers { adjust_ret: 0, store_ret: 0, eth_load_ret: 0, eth_store_ret: 0 }
}

#[test]
fn encap_verdicts_follow_the_answers() {
    let p = tcp4();
    let plan = __encap_gre_mpls(PROTO_IP, &p);
    let mut calls = Vec::new();
    assert_eq!(encap_verdict(&plan, &ok_answers(), &mut calls), 0);
    assert_eq!(calls.len(), 2);
    assert!(matches!(calls[0], TunnelCall::AdjustRoom { len_diff: 28, .. }));
    assert!(calls[1] == TunnelCall::StoreOuter { len: 28 });
    // a refused room drops the packet before anything is stored
    let mut c2 = Vec::new();
    let refused = EncapAnswers { adjust_ret: -12, ..ok_answers() };
    assert_eq!(encap_verdict(&plan, &refused, &mut c2), 2);
    assert_eq!(c2.len(), 1);
    // a failed store drops it too
    let mut c3 = Vec::new();
    let bad_store = EncapAnswers { store_ret: -14, ..ok_answers() };
    assert_eq!(encap_verdict(&plan, &bad_store, &mut c3), 2);
    // IPv4 in IPv6 also rewrites the Ethernet protocol
    let plan6 = __encap_ipip6_none(PROTO_IP, &p);
    let mut c4 = Vec::new();
    assert_eq!(encap_verdict(&plan6, &ok_answers(), &mut c4), 0);
    assert!(c4 == vec![
        TunnelCall::AdjustRoom { len_diff: 40, flags: 5 },
        TunnelCall::StoreOuter { len: 40 },
        TunnelCall::LoadEth,
        TunnelCall::StoreEth { proto: 0x86dd },
    ]);
    let mut c5 = Vec::new();
    let bad_eth = EncapAnswers { eth_store_ret: -1, ..ok_answers() };
    assert_eq!(encap_verdict(&plan6, &bad_eth, &mut c5), 2);
    // a plan that passes makes no call
    let mut c6 = Vec::new();
    assert_eq!(encap_verdict(&EncapPlan::Pass, &ok_answers(), &mut c6), 0);
    assert!(c6.is_empty());
    assert_eq!(encap_verdict(&EncapPlan::Shot, &ok_answers(), &mut c6), 2);
}

#[test]
fn decap_verdict_closes_the_room() {
    let p = tcp4();
    let plan = __encap_gre_eth(PROTO_IP, &p);
    let q = apply(&p, &plan);
    let d = decap_ipv4(&q);
    let mut calls = Vec::new();
    assert_eq!(decap_verdict(&d, 0, &mut calls), 0);
    assert!(calls == vec![TunnelCall::AdjustRoom { len_diff: -38, flags: 1 }]);
    let mut c2 = Vec::new();
    assert_eq!(decap_verdict(&d, -22, &mut c2), 2);
    let mut c3 = Vec::new();
    assert_eq!(decap_verdict(&DecapPlan::Pass, -22, &mut c3), 0);
    assert!(c3.is_empty());
}
