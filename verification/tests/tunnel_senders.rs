use bpf_progs::tunnel_key::{
    erspan_get_tunnel, geneve_get_tunnel, geneve_set_tunnel, gre_set_tunnel_no_key, ip4ip6erspan_get_tunnel,
    ip4ip6erspan_set_tunnel, ip6geneve_get_tunnel, ip6geneve_set_tunnel, ip6gretap_get_tunnel, ip6gretap_set_tunnel,
    ip6ip6_get_tunnel, ip6ip6_set_tunnel, ip6vxlan_set_tunnel_src, ipip6_get_tunnel, ipip6_set_tunnel,
    ipip_fou_set_tunnel, ipip_get_tunnel, vxlan_set_tunnel_src, TunnelKeyCall, TunnelOpt, TC_ACT_OK, TC_ACT_SHOT,
};

fn set_key(c: &TunnelKeyCall) -> (bpf_progs::tunnel_key::BpfTunnelKey, u64) {
    match c {
        TunnelKeyCall::SetKey { key, flags } => (*key, *flags),
        _ => panic!("expected a key"),
    }
}

#[test]
fn gre_without_key_and_ip6gretap() {
    let mut c = Vec::new();
    assert_eq!(gre_set_tunnel_no_key(0, &mut c), TC_ACT_OK);
    let (k, f) = set_key(&c[0]);
    assert_eq!((k.tunnel_id, k.tunnel_ttl, k.remote[0]), (0, 64, 0xac100164));
    assert_eq!(f, 2 | 8 | 16);
    let mut c6 = Vec::new();
    assert_eq!(ip6gretap_set_tunnel(-5, &mut c6), TC_ACT_SHOT);
    let (k6, f6) = set_key(&c6[0]);
    assert_eq!(k6.remote, [0, 0, 0, 0x11000000]);
    assert_eq!((k6.tunnel_id, k6.tunnel_label, k6.tunnel_ttl), (2, 0xabcde, 64));
    assert_eq!(f6, 1 | 2 | 8);
    let mut g = Vec::new();
    assert_eq!(ip6gretap_get_tunnel(0, &mut g), TC_ACT_OK);
    assert!(matches!(g[0], TunnelKeyCall::GetKey { flags: 1 }));
}

#[test]
fn erspan_receivers_read_twelve_bytes() {
    let mut c = Vec::new();
    assert_eq!(erspan_get_tunnel(0, 0, &mut c), TC_ACT_OK);
    assert!(matches!(c[1], TunnelKeyCall::GetOpt { size: 12 }));
    let mut c2 = Vec::new();
    assert_eq!(ip4ip6erspan_get_tunnel(0, -1, &mut c2), TC_ACT_SHOT);
    assert!(matches!(c2[0], TunnelKeyCall::GetKey { flags: 1 }));
    let mut s = Vec::new();
    assert_eq!(ip4ip6erspan_set_tunnel(0, 0, &mut s), TC_ACT_OK);
    assert!(matches!(s[1], TunnelKeyCall::SetOpt { opt: TunnelOpt::Erspan { version: 2, byte6: 1, byte7: 0x10 } }));
}

#[test]
fn vxlan_from_local_address() {
    let mut c = Vec::new();
    assert_eq!(vxlan_set_tunnel_src(Some(0x0102_0304), 0, 0, &mut c), TC_ACT_OK);
    let (k, _) = set_key(&c[1]);
    assert_eq!((k.local[0], k.remote[0]), (0x0102_0304, 0xac100164));
    let mut c6 = Vec::new();
    assert_eq!(ip6vxlan_set_tunnel_src(None, 0, &mut c6), TC_ACT_SHOT);
    assert_eq!(c6.len(), 1);
}

#[test]
fn geneve_senders_and_receivers() {
    let mut c = Vec::new();
    assert_eq!(geneve_set_tunnel(0, 0, &mut c), TC_ACT_OK);
    match c[1] {
        TunnelKeyCall::SetOpt { opt: TunnelOpt::Geneve { opt_class, opt_type, flags, data } } => {
            assert_eq!((opt_class, opt_type, flags), (0x0201, 8, 2));
            assert_eq!(data, 0xefbeadde);
        },
        _ => panic!("expected an option"),
    }
    let mut c6 = Vec::new();
    assert_eq!(ip6geneve_set_tunnel(0, -2, &mut c6), TC_ACT_SHOT);
    let (k6, _) = set_key(&c6[0]);
    assert_eq!(k6.tunnel_id, 22);
    let mut g = Vec::new();
    assert_eq!(geneve_get_tunnel(0, &mut g), TC_ACT_OK);
    assert_eq!(g.len(), 2);
    let mut g6 = Vec::new();
    assert_eq!(ip6geneve_get_tunnel(-1, &mut g6), TC_ACT_SHOT);
    assert_eq!(g6.len(), 1);
}

#[test]
fn ip_in_ip_senders_pick_remote_for_icmp() {
    let mut icmp4 = vec![0u8; 20];
    icmp4[9] = 1;
    let mut c = Vec::new();
    assert_eq!(ipip6_set_tunnel(&icmp4, 0, &mut c), TC_ACT_OK);
    let (k, f) = set_key(&c[0]);
    assert_eq!((k.remote, f), ([0, 0, 0, 0x11000000], 1));
    let udp4 = vec![0u8; 20];
    let mut c2 = Vec::new();
    ipip6_set_tunnel(&udp4, 0, &mut c2);
    assert_eq!(set_key(&c2[0]).0.remote, [0; 4]);
    let mut c3 = Vec::new();
    assert_eq!(ipip6_set_tunnel(&[0u8; 10], 0, &mut c3), TC_ACT_SHOT);
    assert!(c3.is_empty());
    let mut icmp6 = vec![0u8; 40];
    icmp6[6] = 58;
    let mut c4 = Vec::new();
    assert_eq!(ip6ip6_set_tunnel(&icmp6, 0, &mut c4), TC_ACT_OK);
    assert_eq!(set_key(&c4[0]).0.remote, [0, 0, 0, 0x11000000]);
    let mut c5 = Vec::new();
    assert_eq!(ipip_fou_set_tunnel(&icmp4, 0, 0, &mut c5), TC_ACT_OK);
    assert!(matches!(c5[1], TunnelKeyCall::SetFouEncap { sport: 0, dport: 0xb315, encap_type: 0 }));
    let mut r = Vec::new();
    assert_eq!(ipip_get_tunnel(0, &mut r), TC_ACT_OK);
    assert_eq!(ipip6_get_tunnel(-1, &mut r), TC_ACT_SHOT);
    assert_eq!(ip6ip6_get_tunnel(0, &mut r), TC_ACT_OK);
    assert_eq!(r.len(), 3);
}
