use bpf_progs::balancer::{
    assoc_find, assoc_update, balancer_ingress_v4, balancer_ingress_v6, calc_offset, get_packet_hash, swap_bytes,
    CtlValue, FlowKey, LbEnv, LbMaps, LbStats, PacketDescription, RealDefinition, VipDefinition, VipMeta,
};
use bpf_progs::checksum::{csum_fold, csum_partial};

/// The all-zero IPv4 TCP test frame: payload length 123 in the header.
fn pkt_v4() -> Vec<u8> {
    let mut p = vec![0u8; 54];
    p[12] = 0x08;
    p[14] = 0x05;
    p[16] = 0;
    p[17] = 123;
    p[23] = 6;
    p[46] = 0x50;
    p
}

/// The all-zero IPv6 TCP test frame: payload length 123.
fn pkt_v6() -> Vec<u8> {
    let mut p = vec![0u8; 74];
    p[12] = 0x86;
    p[13] = 0xdd;
    p[19] = 123;
    p[20] = 6;
    p[66] = 0x50;
    p
}

fn maps() -> LbMaps {
    let vip = VipDefinition { vip: [0; 4], port: 0, family: 0, proto: 6 };
    LbMaps {
        vip_map: vec![(vip, VipMeta { flags: 0, vip_num: 1 })],
        lru_cache: Vec::new(),
        ch_rings: vec![0, 0, 0, 3],
        reals: vec![
            RealDefinition { addr: [0; 4], flags: 0 },
            RealDefinition { addr: [0; 4], flags: 0 },
            RealDefinition { addr: [0; 4], flags: 0 },
            RealDefinition { addr: [0x1234, 0, 0, 0], flags: 0 },
        ],
        stats: vec![LbStats { v1: 0, v2: 0 }; 515],
        ctl_array: vec![CtlValue { mac: [1, 2, 3, 4, 5, 6] }],
    }
}

fn env(now: u64) -> LbEnv {
    LbEnv { now_lookup: now, now_dst: now, head_room: true, stale_id: 0 }
}

#[test]
fn transport_offsets() {
    assert_eq!(calc_offset(false, false), 34);
    assert_eq!(calc_offset(false, true), 62);
    assert_eq!(calc_offset(true, false), 54);
    assert_eq!(calc_offset(true, true), 102);
}

#[test]
fn flow_hashes_of_zero_flows() {
    let zero = PacketDescription { flow: FlowKey { src: [0; 4], dst: [0; 4], ports: [0, 0], proto: 6 }, flags: 0 };
    assert_eq!(get_packet_hash(&zero, false), 0x358459b7);
    assert_eq!(get_packet_hash(&zero, true), 0x2f4bc6bb);
}

#[test]
fn ipv4_frame_goes_to_real() {
    let mut m = maps();
    let mut p = pkt_v4();
    assert_eq!(balancer_ingress_v4(&mut p, &mut m, &env(1)), 1);
    // The frame starts with the real's address.
    assert_eq!(&p[..4], &[0x34, 0x12, 0, 0]);
    assert_eq!(p.len(), 54);
    // One packet of 123 bytes for virtual IP 1; one new choice; one non-SYN.
    assert_eq!((m.stats[1].v1, m.stats[1].v2), (1, 123));
    assert_eq!((m.stats[512].v1, m.stats[512].v2), (1, 1));
    assert_eq!(m.stats[513].v2, 1);
    assert_eq!(m.stats[514].v1, 1);
    assert!(m.lru_cache.is_empty());
}

#[test]
fn ipv6_frame_goes_to_real() {
    let mut m = maps();
    let mut p = pkt_v6();
    assert_eq!(balancer_ingress_v6(&mut p, &mut m, &env(1)), 1);
    assert_eq!(&p[..4], &[0x34, 0x12, 0, 0]);
    assert_eq!((m.stats[1].v1, m.stats[1].v2), (1, 123));
}

#[test]
fn chosen_real_is_remembered() {
    let mut m = maps();
    let now: u64 = 1 << 57;
    let mut p = pkt_v4();
    assert_eq!(balancer_ingress_v4(&mut p, &mut m, &env(now)), 1);
    assert_eq!(m.lru_cache.len(), 1);
    assert_eq!(m.lru_cache[0].1.pos, 3);
    assert_eq!(m.stats[514].v2, now);
    // The next frame of the flow is sent by the connection table.
    let mut q = pkt_v4();
    assert_eq!(balancer_ingress_v4(&mut q, &mut m, &env(now + 10)), 1);
    assert_eq!(&q[..4], &[0x34, 0x12, 0, 0]);
    assert_eq!(m.stats[513].v2, 1);
    assert_eq!(m.stats[512].v2, 1);
    assert_eq!((m.stats[1].v1, m.stats[1].v2), (2, 246));
}

#[test]
fn unknown_vip_passes_and_bad_frames_drop() {
    let mut m = maps();
    let mut p = pkt_v4();
    p[23] = 17;
    assert_eq!(balancer_ingress_v4(&mut p, &mut m, &env(1)), 2);
    let mut short = pkt_v4()[..30].to_vec();
    assert_eq!(balancer_ingress_v4(&mut short, &mut m, &env(1)), 1);
    let mut v6_as_v4 = pkt_v6();
    assert_eq!(balancer_ingress_v4(&mut v6_as_v4, &mut m, &env(1)), 1);
    // Fragments are dropped.
    let mut frag = pkt_v4();
    frag[20] = 0x20;
    assert_eq!(balancer_ingress_v4(&mut frag, &mut m, &env(1)), 1);
    // No head room: dropped.
    let mut q = pkt_v4();
    let no_room = LbEnv { head_room: false, ..env(1) };
    assert_eq!(balancer_ingress_v4(&mut q, &mut m, &no_room), 1);
    assert_eq!(q, pkt_v4());
}

#[test]
fn other_protocols_are_sent_back_and_long_frames_dropped() {
    // GRE (47): sent back unchanged, tables untouched.
    let mut m = maps();
    let mut p = pkt_v4();
    p[23] = 47;
    assert_eq!(balancer_ingress_v4(&mut p, &mut m, &env(1)), 3);
    let mut expect = pkt_v4();
    expect[23] = 47;
    assert_eq!(p, expect);
    assert!(m.stats.iter().all(|s| s.v1 == 0 && s.v2 == 0));
    // A TCP frame for the virtual IP longer than 1400 bytes: dropped,
    // tables untouched.
    let mut long = pkt_v4();
    long.resize(1401, 0);
    assert_eq!(balancer_ingress_v4(&mut long, &mut m, &env(1)), 1);
    assert!(m.stats.iter().all(|s| s.v1 == 0 && s.v2 == 0));
    assert!(m.lru_cache.is_empty());
}

#[test]
fn icmp_echo_request_is_answered() {
    let mut p = vec![1u8, 1, 1, 1, 1, 1, 2, 2, 2, 2, 2, 2, 0x08, 0x00];
    p.extend_from_slice(&[0x45, 0, 0, 28, 0, 0, 0, 0, 64, 1, 0, 0, 10, 0, 0, 1, 10, 0, 0, 2]);
    p.extend_from_slice(&[8, 0, 0xf7, 0xff, 0, 0, 0, 0]);
    let mut m = maps();
    assert_eq!(balancer_ingress_v4(&mut p, &mut m, &env(1)), 3);
    assert_eq!(&p[0..6], &[2, 2, 2, 2, 2, 2]);
    assert_eq!(&p[6..12], &[1, 1, 1, 1, 1, 1]);
    assert_eq!(p[22], 4);
    assert_eq!(&p[26..30], &[10, 0, 0, 2]);
    assert_eq!(&p[30..34], &[10, 0, 0, 1]);
    assert_eq!(p[34], 0);
    assert_eq!(csum_fold(csum_partial(&p, 14, 10)), 0);
}

#[test]
fn byte_swaps_and_tables() {
    let mut v = vec![1u8, 2, 3, 4, 5, 6];
    swap_bytes(&mut v, 0, 4, 2);
    assert_eq!(v, vec![5, 6, 3, 4, 1, 2]);
    let k1 = FlowKey { src: [1, 0, 0, 0], dst: [0; 4], ports: [1, 2], proto: 6 };
    let k2 = FlowKey { src: [2, 0, 0, 0], dst: [0; 4], ports: [1, 2], proto: 6 };
    let mut t: Vec<(FlowKey, u32)> = Vec::new();
    assoc_update(&mut t, k1, 10);
    assoc_update(&mut t, k2, 20);
    assoc_update(&mut t, k1, 30);
    assert_eq!(t.len(), 2);
    assert_eq!(assoc_find(&t, &k1), Some(0));
    assert_eq!(t[0].1, 30);
    assert_eq!(assoc_find(&t, &k2), Some(1));
    let k3 = FlowKey { proto: 17, ..k1 };
    assert_eq!(assoc_find(&t, &k3), None);
}
