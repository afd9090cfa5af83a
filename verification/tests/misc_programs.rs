use bpf_progs::neigh::{is_remote_ep_v4, tc_chk as neigh_tc_chk, tc_dst as neigh_tc_dst, v6_daddr_equal, NeighCall, IP6_SRC};
use bpf_progs::redirect::{
    change_tail, parse_ip_header, parse_udp_header, tc_count_pkts, xdp_count_pkts, xdp_redirect, RedirectCall, TailCall,
    RedirectState, MARK_IN, MARK_SKB, MARK_XMIT,
};
use bpf_progs::tld::{
    make_value_name, task_main, tld_fetch_key, tld_get_data, tld_name_eq, tld_object_init, tld_round_up,
    test_tld_struct, TldKeys, TldMapValue, TldMeta, TldMetadata, TldValues,
};
use bpf_progs::varlen::{capturing, handler32_unsigned, handler64_unsigned, handler_exit, Payload32, Payload64, VarlenConfig};
use bpf_progs::vlan::{xdp_drop_vlan_4011, xdp_vlan_change, xdp_vlan_remove_outer, xdp_vlan_remove_outer2, XdpOutcome};
use bpf_progs::wakeup::{iterate_wakeupsources, wakeup_event, walk_continues, WakeupSource};

/// A frame with one VLAN tag of id `vid` (priority 5) around IPv4.
fn vlan_frame(vid: u16) -> Vec<u8> {
    let mut p = vec![1u8, 2, 3, 4, 5, 6, 7, 8, 9, 10, 11, 12, 0x81, 0x00];
    p.extend_from_slice(&((5u16 << 13) | vid).to_be_bytes());
    p.extend_from_slice(&[0x08, 0x00]);
    p.extend_from_slice(&[0x45, 0, 0, 20, 0, 0, 0, 0]);
    p
}

#[test]
fn vlan_programs() {
    assert_eq!(xdp_drop_vlan_4011(&vlan_frame(4011)), 0);
    assert_eq!(xdp_drop_vlan_4011(&vlan_frame(4012)), 2);
    assert_eq!(xdp_drop_vlan_4011(&vlan_frame(4011)[..20]), 0);
    let mut p = vlan_frame(4011);
    assert_eq!(xdp_vlan_change(&mut p), 2);
    assert_eq!(&p[14..16], &[0xa0, 0x00]);
    let mut q = vlan_frame(7);
    assert!(xdp_vlan_remove_outer(&mut q) == XdpOutcome { action: 2, head_adjust: 4 });
    // The MAC addresses now sit 4 bytes later, over the old tag.
    assert_eq!(&q[4..16], &[1, 2, 3, 4, 5, 6, 7, 8, 9, 10, 11, 12]);
    assert_eq!(&q[16..18], &[0x08, 0x00]);
    let mut q2 = vlan_frame(7);
    assert!(xdp_vlan_remove_outer2(&mut q2) == XdpOutcome { action: 2, head_adjust: 4 });
    assert_eq!(q, q2);
    // An untagged frame stays as it is.
    let mut plain = vec![0u8; 30];
    plain[12] = 0x08;
    assert!(xdp_vlan_remove_outer(&mut plain) == XdpOutcome { action: 2, head_adjust: 0 });
    assert_eq!(plain[12], 0x08);
}

fn name62(s: &[u8]) -> [u8; 62] {
    let mut n = [0u8; 62];
    n[..s.len()].copy_from_slice(s);
    n
}

fn tld_storage() -> TldMapValue {
    let meta = TldMeta {
        cnt: 3,
        metadata: vec![
            TldMetadata { name: name62(b"value0"), size: 4 },
            TldMetadata { name: name62(b"value1"), size: 4 },
            TldMetadata { name: name62(b"value2"), size: 32 },
        ],
    };
    let mut data = vec![0u8; 4096];
    data[8..12].copy_from_slice(&42i32.to_le_bytes());
    data[16..20].copy_from_slice(&(-7i32).to_le_bytes());
    for (i, w) in [1u64, 2, 3, 4].iter().enumerate() {
        data[24 + 8 * i..32 + 8 * i].copy_from_slice(&w.to_le_bytes());
    }
    TldMapValue { data: Some(data), meta: Some(meta), start: 8 }
}

#[test]
fn tld_names_and_offsets() {
    assert_eq!(tld_round_up(0, 8), 0);
    assert_eq!(tld_round_up(4, 8), 8);
    assert_eq!(tld_round_up(9, 8), 16);
    assert_eq!(tld_round_up(17, 16), 32);
    assert_eq!(tld_round_up(5, 1), 5);
    assert_eq!(tld_round_up(i32::MAX - 7, 8), i32::MAX - 7);
    let n = make_value_name(b"1");
    assert_eq!(n.len(), 62);
    assert_eq!(&n[..7], b"value1\0");
    assert!(tld_name_eq(&name62(b"value1"), &n));
    assert!(!tld_name_eq(&name62(b"value2"), &n));
    let v = tld_storage();
    assert_eq!(tld_fetch_key(&v, &make_value_name(b"0"), 0), 8);
    assert_eq!(tld_fetch_key(&v, &make_value_name(b"2"), 0), 24);
    assert_eq!(tld_fetch_key(&v, &make_value_name(b"3"), 0), -3);
    // Searching from entry 1 skips the first.
    assert_eq!(tld_fetch_key(&v, &make_value_name(b"0"), 1), -3);
    let none = TldMapValue { data: None, meta: None, start: 0 };
    assert_eq!(tld_fetch_key(&none, &make_value_name(b"0"), 0), 0);
    // A name as a string, NUL-ended or not: past its bytes it reads as NUL.
    assert!(tld_name_eq(&name62(b"value1"), b"value1"));
    assert!(tld_name_eq(&name62(b"value1"), b"value1\0"));
    assert!(!tld_name_eq(&name62(b"value1"), b"value"));
    assert!(!tld_name_eq(&name62(b"value1"), b"value12"));
    assert_eq!(tld_fetch_key(&v, b"value2", 0), 24);
    assert_eq!(tld_fetch_key(&v, b"value2\0", 0), 24);
    assert_eq!(tld_fetch_key(&v, b"", 0), -3);
}

#[test]
fn tld_cached_keys() {
    let v = tld_storage();
    let mut key: i16 = 0;
    assert_eq!(tld_get_data(&v, &mut key, &make_value_name(b"1"), 4), Some(16));
    assert_eq!(key, 16);
    assert_eq!(tld_get_data(&v, &mut key, &make_value_name(b"1"), 4), Some(16));
    let mut missing: i16 = 0;
    assert_eq!(tld_get_data(&v, &mut missing, &make_value_name(b"9"), 4), None);
    assert_eq!(missing, -3);
    // All entries searched already: nothing more is looked at.
    assert_eq!(tld_get_data(&v, &mut missing, &make_value_name(b"0"), 4), None);
    assert_eq!(missing, -3);
}

#[test]
fn tld_object_creation() {
    assert_eq!(tld_object_init(false, &[true; 10]), (-61, 0));
    let mut tries = [false; 10];
    tries[3] = true;
    assert_eq!(tld_object_init(true, &tries), (0, 4));
    assert_eq!(tld_object_init(true, &[false; 10]), (-12, 10));
}

#[test]
fn tld_task_reads_values() {
    let v = tld_storage();
    let mut keys = TldKeys { value0: 0, value1: 0, value2: 0, value_not_exist: 0 };
    let mut vals = TldValues { test_value0: 0, test_value1: 0, test_value2: test_tld_struct { a: 0, b: 0, c: 0, d: 0 } };
    assert_eq!(task_main(true, &[true; 10], &v, &mut keys, &mut vals), 0);
    assert_eq!(vals.test_value0, 42);
    assert_eq!(vals.test_value1, -7);
    assert_eq!((vals.test_value2.a, vals.test_value2.d), (1, 4));
    assert_eq!((keys.value0, keys.value1, keys.value2, keys.value_not_exist), (8, 16, 24, -3));
    assert_eq!(task_main(false, &[true; 10], &v, &mut keys, &mut vals), 1);
}

#[test]
fn varlen_captures() {
    let c = VarlenConfig { test_pid: 9, capture: 1 };
    assert!(capturing(&c, 9));
    assert!(!capturing(&c, 8));
    let mut g = Payload64 { len1: 0, len2: 0, total: 0 };
    let mut bad: u64 = 0;
    assert_eq!(handler64_unsigned(&c, 9, 5, 7, -14, &mut g, &mut bad), Some(5));
    assert_eq!((g.len1, g.len2, g.total), (5, 7, 12));
    assert_eq!(bad, (-14i64) as u64);
    let mut g2 = Payload64 { len1: 0, len2: 0, total: 0 };
    assert_eq!(handler64_unsigned(&c, 9, -1, 7, 0, &mut g2, &mut bad), Some(0));
    assert_eq!((g2.len1, g2.total), (0, 7));
    let mut g3 = Payload32 { len1: 0, len2: 0, total: 0 };
    assert_eq!(handler32_unsigned(&c, 9, 300, 4, &mut g3), Some(0));
    assert_eq!((g3.len1, g3.len2, g3.total), (0, 4, 4));
    assert_eq!(handler32_unsigned(&c, 1, 3, 4, &mut g3), None);
    assert_eq!(handler_exit(-14), 1);
    assert_eq!(handler_exit(0), 0);
}

#[test]
fn neighbour_redirects() {
    let mut p = vec![1u8; 54];
    p[12] = 0x86;
    p[13] = 0xdd;
    p[38..54].copy_from_slice(&IP6_SRC);
    assert!(v6_daddr_equal(&p, 38, &IP6_SRC));
    let mut calls = Vec::new();
    assert_eq!(neigh_tc_dst(&p, 0xdd86, 3, 0, 7, &mut calls), 7);
    assert_eq!(calls.len(), 2);
    assert!(matches!(calls[1], NeighCall::RedirectNeigh { ifindex: 3, nh: None }));
    let mut c2 = Vec::new();
    assert_eq!(neigh_tc_dst(&p, 0xdd86, 3, -1, 7, &mut c2), 2);
    assert_eq!(c2.len(), 1);
    let mut v4 = vec![0u8; 34];
    v4[30..34].copy_from_slice(&[172, 16, 1, 100]);
    assert!(is_remote_ep_v4(&v4, 0x640110ac));
    assert_eq!(neigh_tc_chk(&[0u8; 14]), 2);
    assert_eq!(neigh_tc_chk(&[1u8; 14]), 0);
    assert_eq!(neigh_tc_chk(&[1u8; 13]), 2);
}

fn marked_packet(mark: u8) -> Vec<u8> {
    let mut p = vec![0u8; 63];
    p[20] = 17;
    p[62] = mark;
    p
}

#[test]
fn redirect_marks_and_counts() {
    let mut s = RedirectState { ifindex_in: 5, ifindex_out: 6, pkts_seen_zero: 0, retcode: 4 };
    let mut p = marked_packet(MARK_XMIT);
    let meta = 0x42u32.to_le_bytes();
    let mut calls = Vec::new();
    assert_eq!(xdp_redirect(&mut p, &meta, 5, &mut s, 0, 4, &mut calls), 4);
    assert_eq!(p[62], MARK_IN);
    assert_eq!((s.pkts_seen_zero, s.retcode), (1, 3));
    assert!(calls == vec![RedirectCall::AdjustMeta { delta: 8 }, RedirectCall::Redirect { ifindex: 6 }]);
    // Wrong interface or missing marker: aborted, untouched.
    let mut q = marked_packet(MARK_XMIT);
    assert_eq!(xdp_redirect(&mut q, &meta, 4, &mut s, 0, 4, &mut calls), 0);
    assert_eq!(q[62], MARK_XMIT);
    let mut seen_xdp: i32 = 0;
    assert_eq!(xdp_count_pkts(&mut p, &mut seen_xdp), 1);
    assert_eq!((p[62], seen_xdp), (MARK_XMIT, 1));
    assert_eq!(xdp_count_pkts(&mut p, &mut seen_xdp), 1);
    assert_eq!(seen_xdp, 1);
    let mut r = marked_packet(MARK_IN);
    let mut seen_tc: i32 = 0;
    assert_eq!(tc_count_pkts(&mut r, &mut seen_tc), 0);
    assert_eq!((r[62], seen_tc), (MARK_SKB, 1));
}

#[test]
fn change_tail_headers() {
    let mut ip = vec![0u8; 14];
    ip.extend_from_slice(&[0x45, 0, 0, 28, 0, 0, 0, 0, 64, 17, 0, 0, 1, 1, 1, 1, 2, 2, 2, 2]);
    ip.extend_from_slice(&[0, 1, 0, 2, 0, 8, 0, 0]);
    let mut proto: i32 = 0;
    assert_eq!(parse_ip_header(&ip, &mut proto), Some(14));
    assert_eq!(proto, 17);
    assert_eq!(parse_udp_header(&ip, 14), Some(34));
    ip.push(b'T');
    let mut ret: i64 = 5;
    let mut calls = Vec::new();
    assert_eq!(change_tail(&ip, 43, 0, &mut ret, &mut calls), 0);
    assert_eq!(ret, 0);
    assert_eq!(calls.len(), 3);
    assert!(calls[1] == TailCall::ChangeTail { len: 42 });
    assert!(calls[2] == TailCall::ChangeTail { len: 43 });
    let mut big = ip.clone();
    big[42] = b'E';
    let mut c2 = Vec::new();
    assert_eq!(change_tail(&big, 43, -22, &mut ret, &mut c2), 0);
    assert_eq!(ret, -22);
    assert!(c2[1] == TailCall::ChangeTail { len: 16384 });
    let mut other = ip.clone();
    other[42] = b'X';
    let mut c3 = Vec::new();
    assert_eq!(change_tail(&other, 43, 0, &mut ret, &mut c3), 2);
    assert_eq!(c3.len(), 1);
}

fn source(flags: u8) -> WakeupSource {
    WakeupSource {
        flags,
        total_time: 100,
        max_time: 10,
        last_time: 1000,
        start_prevent_time: 500,
        prevent_sleep_time: 20,
        event_count: 1,
        active_count: 2,
        expire_count: 3,
        wakeup_count: 4,
    }
}

#[test]
fn wakeup_source_events() {
    let idle = wakeup_event(&source(0), 5000);
    assert_eq!((idle.active_time_ns, idle.total_time_ns, idle.max_time_ns), (0, 100, 10));
    let active = wakeup_event(&source(1), 5000);
    assert_eq!((active.active_time_ns, active.total_time_ns, active.max_time_ns), (4000, 4100, 4000));
    assert_eq!(active.prevent_sleep_time_ns, 20);
    let auto = wakeup_event(&source(3), 5000);
    assert_eq!(auto.prevent_sleep_time_ns, 4520);
    assert!(walk_continues(1, 2, 0));
    assert!(!walk_continues(1, 1, 0));
    assert!(!walk_continues(1, 0, 0));
    assert!(!walk_continues(1, 2, -14));
    let links = vec![(0i64, 10u64), (0, 11), (0, 1), (0, 12)];
    assert_eq!(iterate_wakeupsources(1, &links, &vec![true; 4]), 2);
    assert_eq!(iterate_wakeupsources(1, &links, &vec![true, false, true, true]), 1);
}
