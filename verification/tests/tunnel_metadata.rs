use bpf_progs::tunnel_key::{
    erspan_set_tunnel, gre_get_tunnel, gre_set_tunnel, ip6vxlan_get_tunnel_src, ip6vxlan_set_tunnel_dst,
    ipip_encap_get_tunnel, ipip_gue_set_tunnel, ipip_set_tunnel, set_erspan_md2, veth_set_outer_dst,
    vxlan_get_tunnel_src, vxlan_set_tunnel_dst, xfrm_get_state, xfrm_get_state_xdp, BpfTunnelKey, TunnelKeyCall,
    TunnelOpt, XfrmGlobals, XfrmState, TC_ACT_OK, TC_ACT_SHOT,
};

fn key() -> BpfTunnelKey {
    BpfTunnelKey { tunnel_id: 0, remote: [0; 4], tunnel_tos: 0, tunnel_ttl: 0, tunnel_flags: 0, tunnel_label: 0, local: [0; 4] }
}

#[test]
fn gre_sender_key() {
    let mut calls = Vec::new();
    assert_eq!(gre_set_tunnel(0, &mut calls), TC_ACT_OK);
    match calls[0] {
        TunnelKeyCall::SetKey { key, flags } => {
            assert_eq!(key.remote, [0xac100164, 0, 0, 0]);
            assert_eq!((key.tunnel_id, key.tunnel_ttl, key.tunnel_tos), (2, 64, 0));
            assert_eq!(flags, 2 | 8);
        },
        _ => panic!("expected a key"),
    }
    assert_eq!(gre_set_tunnel(-1, &mut calls), TC_ACT_SHOT);
    assert_eq!(gre_get_tunnel(-2, &mut calls), TC_ACT_SHOT);
    assert_eq!(gre_get_tunnel(0, &mut calls), TC_ACT_OK);
}

#[test]
fn erspan_metadata_bytes() {
    // Direction 1, hardware id 7: id's top bits 0; direction bit 3, low id bits 4-7.
    assert!(set_erspan_md2(1, 7) == TunnelOpt::Erspan { version: 2, byte6: 0, byte7: 0x78 });
    // Hardware id 17 (0b010001): top bits 1, low bits 1.
    assert!(set_erspan_md2(0, 17) == TunnelOpt::Erspan { version: 2, byte6: 1, byte7: 0x10 });
    let mut calls = Vec::new();
    assert_eq!(erspan_set_tunnel(0, -1, &mut calls), TC_ACT_SHOT);
    assert_eq!(calls.len(), 2);
    let mut c2 = Vec::new();
    assert_eq!(erspan_set_tunnel(-1, 0, &mut c2), TC_ACT_SHOT);
    assert_eq!(c2.len(), 1);
}

#[test]
fn vxlan_sender_and_receiver() {
    let mut calls = Vec::new();
    assert_eq!(vxlan_set_tunnel_dst(None, 0, 0, &mut calls), TC_ACT_SHOT);
    assert_eq!(calls.len(), 1);
    let mut c = Vec::new();
    assert_eq!(vxlan_set_tunnel_dst(Some(0x0a0a0a0a), 0, 0, &mut c), TC_ACT_OK);
    match c[1] {
        TunnelKeyCall::SetKey { key, .. } => {
            assert_eq!(key.remote[0], 0x0a0a0a0a);
            assert_eq!(key.local[0], 0xac100164);
        },
        _ => panic!("expected a key"),
    }
    assert!(matches!(c[2], TunnelKeyCall::SetOpt { opt: TunnelOpt::Vxlan { gbp: 0x800FF } }));
    let good = BpfTunnelKey { local: [0xac1001c8, 0, 0, 0], tunnel_flags: 0x0400, ..key() };
    let mut r = Vec::new();
    assert_eq!(vxlan_get_tunnel_src(0, &good, 0, 0x800FF, &mut r), TC_ACT_OK);
    assert_eq!(vxlan_get_tunnel_src(0, &good, 0, 0x800FE, &mut r), TC_ACT_SHOT);
    let csum = BpfTunnelKey { tunnel_flags: 0x0500, ..good };
    assert_eq!(vxlan_get_tunnel_src(0, &csum, 0, 0x800FF, &mut r), TC_ACT_SHOT);
}

#[test]
fn ip6vxlan_local_address() {
    let mut c = Vec::new();
    assert_eq!(ip6vxlan_set_tunnel_dst(Some(0x11223344), 0, &mut c), TC_ACT_OK);
    match c[1] {
        TunnelKeyCall::SetKey { key, flags } => {
            assert_eq!(key.remote, [0, 0, 0, 0x44332211]);
            assert_eq!(key.local, [0, 0, 0, 0x11000000]);
            assert_eq!(key.tunnel_id, 22);
            assert_eq!(flags, 1);
        },
        _ => panic!("expected a key"),
    }
    let got = BpfTunnelKey { local: [0, 0, 0, 0x44332211], tunnel_flags: 0x0500, ..key() };
    let mut r = Vec::new();
    assert_eq!(ip6vxlan_get_tunnel_src(Some(0x11223344), 0, &got, &mut r), TC_ACT_OK);
    let no_csum = BpfTunnelKey { tunnel_flags: 0x0400, ..got };
    assert_eq!(ip6vxlan_get_tunnel_src(Some(0x11223344), 0, &no_csum, &mut r), TC_ACT_SHOT);
}

#[test]
fn ipip_and_fou() {
    let mut icmp = vec![0u8; 20];
    icmp[9] = 1;
    let mut c = Vec::new();
    assert_eq!(ipip_set_tunnel(&icmp, 0, &mut c), TC_ACT_OK);
    match c[0] {
        TunnelKeyCall::SetKey { key, flags } => {
            assert_eq!(key.remote[0], 0xac100164);
            assert_eq!(key.tunnel_ttl, 64);
            assert_eq!(flags, 0);
        },
        _ => panic!("expected a key"),
    }
    let mut udp = icmp.clone();
    udp[9] = 17;
    let mut c2 = Vec::new();
    ipip_set_tunnel(&udp, 0, &mut c2);
    match c2[0] {
        TunnelKeyCall::SetKey { key, .. } => assert_eq!(key.remote[0], 0),
        _ => panic!("expected a key"),
    }
    assert_eq!(ipip_set_tunnel(&icmp[..19], 0, &mut c2), TC_ACT_SHOT);
    let mut c3 = Vec::new();
    assert_eq!(ipip_gue_set_tunnel(&icmp, 0, 0, &mut c3), TC_ACT_OK);
    assert!(matches!(c3[1], TunnelKeyCall::SetFouEncap { sport: 0, dport: 0xb315, encap_type: 1 }));
    let mut c4 = Vec::new();
    assert_eq!(ipip_encap_get_tunnel(0, 0, 0xb315, &mut c4), TC_ACT_OK);
    assert_eq!(ipip_encap_get_tunnel(0, 0, 0x15b3, &mut c4), TC_ACT_SHOT);
}

/// A VXLAN frame (IPv4, UDP to 4789) toward `daddr`.
fn vxlan_frame(daddr: [u8; 4]) -> Vec<u8> {
    let mut p = vec![0u8; 12];
    p.extend_from_slice(&[0x08, 0x00]);
    p.extend_from_slice(&[0x45, 0, 0, 50, 0, 0, 0, 0, 64, 17, 0, 0, 10, 0, 0, 1]);
    p.extend_from_slice(&daddr);
    p.extend_from_slice(&[0x30, 0x39, 0x12, 0xb5, 0, 30, 0, 0]);
    p
}

#[test]
fn veth_outer_destination() {
    let mut c = Vec::new();
    assert_eq!(veth_set_outer_dst(&vxlan_frame([172, 16, 1, 1]), 0x1234, 0, 0, &mut c), TC_ACT_OK);
    assert_eq!(c.len(), 4);
    match c[1] {
        TunnelKeyCall::Store { off, value } => {
            assert_eq!(off, 30);
            assert_eq!(value.to_le_bytes(), [172, 16, 1, 200]);
        },
        _ => panic!("expected a store"),
    }
    assert!(matches!(c[2], TunnelKeyCall::L3CsumReplace { off: 24, diff: 0x1234 }));
    // Already addressed to veth1: untouched.
    let mut c2 = Vec::new();
    assert_eq!(veth_set_outer_dst(&vxlan_frame([172, 16, 1, 200]), 0, 0, 0, &mut c2), TC_ACT_OK);
    assert!(c2.is_empty());
    // Failed store drops.
    let mut c3 = Vec::new();
    assert_eq!(veth_set_outer_dst(&vxlan_frame([1, 2, 3, 4]), 0, -1, 0, &mut c3), TC_ACT_SHOT);
    // Truncated frames drop; other traffic passes.
    let mut c4 = Vec::new();
    assert_eq!(veth_set_outer_dst(&vxlan_frame([1, 2, 3, 4])[..40], 0, 0, 0, &mut c4), TC_ACT_SHOT);
    let mut tcp = vxlan_frame([1, 2, 3, 4]);
    tcp[23] = 6;
    assert_eq!(veth_set_outer_dst(&tcp, 0, 0, 0, &mut c4), TC_ACT_OK);
    assert!(c4.is_empty());
}

#[test]
fn xfrm_state_recording() {
    let mut g = XfrmGlobals { xfrm_reqid: 0, xfrm_spi: 0, xfrm_remote_ip: 0, xfrm_replay_window: 0 };
    let mut c = Vec::new();
    let x = XfrmState { reqid: 1, spi: 0x01000000, remote_ipv4: 0x0100000a };
    assert_eq!(xfrm_get_state(0, &x, &mut g, &mut c), TC_ACT_OK);
    assert_eq!((g.xfrm_reqid, g.xfrm_spi, g.xfrm_remote_ip), (1, 1, 0x0a000001));
    let mut frame = vec![0u8; 42];
    frame[23] = 50;
    frame[30..34].copy_from_slice(&[10, 0, 0, 2]);
    frame[34..38].copy_from_slice(&[0, 0, 0, 5]);
    let mut c2 = Vec::new();
    assert_eq!(xfrm_get_state_xdp(&frame, 0, Some(Some(64)), &mut g, &mut c2), 2);
    assert_eq!(g.xfrm_replay_window, 64);
    assert_eq!(c2.len(), 2);
    match c2[0] {
        TunnelKeyCall::GetXfrmStateXdp { opts } => {
            assert_eq!(opts.daddr, 0x0200000a);
            assert_eq!(opts.spi, 0x05000000);
            assert_eq!((opts.proto, opts.family, opts.netns_id), (50, 2, -1));
        },
        _ => panic!("expected a lookup"),
    }
    assert!(matches!(c2[1], TunnelKeyCall::ReleaseXfrmState));
    let mut c3 = Vec::new();
    xfrm_get_state_xdp(&frame, 0, None, &mut g, &mut c3);
    assert_eq!(c3.len(), 1);
    frame[23] = 6;
    let mut c4 = Vec::new();
    xfrm_get_state_xdp(&frame, 0, Some(None), &mut g, &mut c4);
    assert!(c4.is_empty());
}
