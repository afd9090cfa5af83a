use bpf_progs::lsm::{bpf, normalize_lsm_ret, Pkcs7Answers, Pkcs7Call, Pkcs7Config, EFAULT, EINVAL, ENOENT};
use bpf_progs::peer::{tc_chk, tc_dst, tc_dst_ing, tc_src_ing, tc_src_l3, PeerCall, TC_ACT_SHOT};
use bpf_progs::sysctl::{is_tcp_mem, sysctl_tcp_mem, TCP_MEM_LOOPS, TCP_MEM_LOOPS_SHORT};
use bpf_progs::tclink::{tc1, tc2, tc7, tc8, TcLinkCall, TcLinkGlobals, PACKET_HOST, PACKET_MULTICAST, PROTO_IP_RAW};
use bpf_progs::xdp_tail::{_xdp_adjust_tail_grow, _xdp_adjust_tail_shrink, xdp_adjust_frags, TailOutcome};

#[test]
fn lsm_return_values_are_clamped() {
    assert_eq!(normalize_lsm_ret(0), 0);
    assert_eq!(normalize_lsm_ret(-1), -1);
    assert_eq!(normalize_lsm_ret(-4095), -4095);
    assert_eq!(normalize_lsm_ret(-4096), EFAULT);
    assert_eq!(normalize_lsm_ret(1), EFAULT);
    assert_eq!(normalize_lsm_ret(i32::MIN), EFAULT);
}

fn pkcs7_ok() -> Pkcs7Answers {
    Pkcs7Answers {
        pid_tgid: 1234u64 << 32 | 99,
        data_slot: true,
        copy_ret: 0,
        data_len: 100,
        sig_len: 50,
        keyring_found: true,
        verify_ret: 0,
    }
}

#[test]
fn pkcs7_hook_checks_signature() {
    let c = Pkcs7Config { monitored_pid: 1234, user_keyring_serial: 0, system_keyring_id: 7 };
    let (r, calls) = bpf(&c, &pkcs7_ok());
    assert_eq!(r, 0);
    assert_eq!(calls.len(), 6);
    assert!(calls[0] == Pkcs7Call::CopyFromUser { size: 1049608 });
    assert!(calls[1] == Pkcs7Call::DataDynptr { len: 100 });
    assert!(calls[2] == Pkcs7Call::SigDynptr { len: 50 });
    assert!(calls[3] == Pkcs7Call::LookupSystemKey { id: 7 });
    assert!(calls[4] == Pkcs7Call::VerifySignature);
    assert!(calls[5] == Pkcs7Call::KeyPut);
    // A failed check is reported within the errno range.
    let bad = Pkcs7Answers { verify_ret: -74, ..pkcs7_ok() };
    assert_eq!(bpf(&c, &bad).0, -74);
    let weird = Pkcs7Answers { verify_ret: 5, ..pkcs7_ok() };
    assert_eq!(bpf(&c, &weird).0, EFAULT);
}

#[test]
fn pkcs7_hook_errors() {
    let c = Pkcs7Config { monitored_pid: 1234, user_keyring_serial: 3, system_keyring_id: 7 };
    let other = Pkcs7Answers { pid_tgid: 1, ..pkcs7_ok() };
    let (r, calls) = bpf(&c, &other);
    assert_eq!(r, 0);
    assert!(calls.is_empty());
    let no_slot = Pkcs7Answers { data_slot: false, ..pkcs7_ok() };
    assert_eq!(bpf(&c, &no_slot).0, 0);
    let copy_fail = Pkcs7Answers { copy_ret: -14, ..pkcs7_ok() };
    assert_eq!(bpf(&c, &copy_fail).0, -14);
    let long_data = Pkcs7Answers { data_len: 1048577, ..pkcs7_ok() };
    assert_eq!(bpf(&c, &long_data).0, EINVAL);
    let long_sig = Pkcs7Answers { sig_len: 1025, ..pkcs7_ok() };
    let (r, calls) = bpf(&c, &long_sig);
    assert_eq!(r, EINVAL);
    assert_eq!(calls.len(), 2);
    let no_key = Pkcs7Answers { keyring_found: false, ..pkcs7_ok() };
    let (r, calls) = bpf(&c, &no_key);
    assert_eq!(r, ENOENT);
    assert!(calls[3] == Pkcs7Call::LookupUserKey { serial: 3 });
    assert_eq!(calls.len(), 4);
}

#[test]
fn tail_grow_amounts() {
    assert!(_xdp_adjust_tail_grow(54, 0) == TailOutcome { action: 3, delta: Some(4096) });
    assert!(_xdp_adjust_tail_grow(54, -22) == TailOutcome { action: 1, delta: Some(4096) });
    assert!(_xdp_adjust_tail_grow(128, 0) == TailOutcome { action: 3, delta: Some(3392) });
    assert!(_xdp_adjust_tail_grow(74, 0) == TailOutcome { action: 3, delta: Some(40) });
    assert!(_xdp_adjust_tail_grow(90001, 0) == TailOutcome { action: 3, delta: Some(65536) });
    assert!(_xdp_adjust_tail_grow(100, 0) == TailOutcome { action: 0, delta: None });
}

#[test]
fn tail_shrink_amounts() {
    assert!(_xdp_adjust_tail_shrink(54, &[0], 0) == TailOutcome { action: 3, delta: Some(-256) });
    assert!(_xdp_adjust_tail_shrink(9000, &[1, 9], 0) == TailOutcome { action: 3, delta: Some(-4100) });
    assert!(_xdp_adjust_tail_shrink(9000, &[2], -1) == TailOutcome { action: 1, delta: Some(-8200) });
    assert!(_xdp_adjust_tail_shrink(9000, &[3], 0) == TailOutcome { action: 1, delta: None });
    assert!(_xdp_adjust_tail_shrink(9000, &[], 0) == TailOutcome { action: 1, delta: None });
    assert!(_xdp_adjust_tail_shrink(60, &[], 0) == TailOutcome { action: 3, delta: Some(-20) });
}

#[test]
fn frags_block_rewrite() {
    let mut buf = vec![0u8; 64];
    buf[0..4].copy_from_slice(&40u32.to_le_bytes());
    buf[40] = 0xaa;
    buf[55] = 0xaa;
    let before = buf.clone();
    assert_eq!(xdp_adjust_frags(16, &mut buf), 2);
    assert_eq!(buf[40], 0xbb);
    assert_eq!(buf[55], 0xbb);
    for i in 0..64 {
        if i != 40 && i != 55 {
            assert_eq!(buf[i], before[i]);
        }
    }
    // Wrong marker, block past the end, short linear part: dropped as is.
    let mut b2 = before.clone();
    b2[55] = 0;
    let keep = b2.clone();
    assert_eq!(xdp_adjust_frags(16, &mut b2), 1);
    assert_eq!(b2, keep);
    let mut b3 = before.clone();
    b3[0..4].copy_from_slice(&50u32.to_le_bytes());
    assert_eq!(xdp_adjust_frags(16, &mut b3), 1);
    let mut b4 = before.clone();
    assert_eq!(xdp_adjust_frags(3, &mut b4), 1);
}

#[test]
fn sysctl_name_check() {
    let name = b"net/ipv4/tcp_mem\0";
    assert_eq!(is_tcp_mem(16, name, name), 1);
    assert_eq!(is_tcp_mem(15, name, name), 0);
    assert_eq!(is_tcp_mem(-1, name, name), 0);
    let other = b"net/ipv4/tcp_rem\0";
    assert_eq!(is_tcp_mem(16, other, name), 0);
}

fn parses(first: &[(i64, u64)], n: usize) -> Vec<(i64, u64)> {
    let mut v = first.to_vec();
    while v.len() < n {
        v.push((2, 0));
    }
    v
}

#[test]
fn sysctl_value_parse() {
    let p = parses(&[(7, 100), (7, 200), (6, 300)], TCP_MEM_LOOPS);
    let (r, offs) = sysctl_tcp_mem(0, true, 190, &p, TCP_MEM_LOOPS);
    assert_eq!(r, 1);
    assert_eq!(offs.len(), TCP_MEM_LOOPS);
    assert_eq!(&offs[..5], &[0, 7, 14, 20, 22]);
    // Not increasing.
    let p2 = parses(&[(7, 300), (7, 200), (6, 300)], TCP_MEM_LOOPS_SHORT);
    assert_eq!(sysctl_tcp_mem(0, true, 100, &p2, TCP_MEM_LOOPS_SHORT).0, 0);
    // A failed parse stops after its call.
    let p3 = parses(&[(7, 1), (0, 2)], TCP_MEM_LOOPS);
    let (r, offs) = sysctl_tcp_mem(0, true, 100, &p3, TCP_MEM_LOOPS);
    assert_eq!((r, offs), (0, vec![0, 7]));
    // Writes, other sysctls and unreadable values are not looked at.
    assert_eq!(sysctl_tcp_mem(1, true, 100, &p, TCP_MEM_LOOPS), (0, vec![]));
    assert_eq!(sysctl_tcp_mem(0, false, 100, &p, TCP_MEM_LOOPS), (0, vec![]));
    assert_eq!(sysctl_tcp_mem(0, true, 196, &p, TCP_MEM_LOOPS), (0, vec![]));
    assert_eq!(sysctl_tcp_mem(0, true, -1, &p, TCP_MEM_LOOPS), (0, vec![]));
}

fn link_globals() -> TcLinkGlobals {
    TcLinkGlobals {
        seen_tc1: false,
        seen_tc2: false,
        seen_tc3: false,
        seen_tc4: false,
        seen_tc5: false,
        seen_tc6: false,
        seen_tc7: false,
        seen_tc8: false,
        set_type: true,
        seen_eth: false,
        seen_host: false,
        seen_mcast: false,
        mark: 0,
        prio: 0,
        headroom: 0,
        tailroom: 0,
    }
}

#[test]
fn tc_link_retype_roundtrip() {
    let mut p = vec![0u8; 60];
    p[12] = 0x08;
    let mut g = link_globals();
    let mut calls = Vec::new();
    assert_eq!(tc1(PROTO_IP_RAW, PACKET_HOST, &mut p, &mut g, 0, &mut calls), -1);
    assert_eq!(p[0], 4);
    assert!(g.seen_tc1 && g.seen_eth && g.seen_host);
    assert_eq!(calls.len(), 2);
    assert!(calls[1] == TcLinkCall::ChangeType { pkt_type: PACKET_MULTICAST });
    assert_eq!(tc7(PROTO_IP_RAW, PACKET_MULTICAST, &p, &mut g, &mut calls), 0);
    assert!(g.seen_mcast && g.seen_tc7);
    assert!(calls[2] == TcLinkCall::ChangeType { pkt_type: PACKET_HOST });
    // A failed store returns before the run is recorded.
    let mut g2 = link_globals();
    let mut p2 = vec![0u8; 60];
    let mut c2 = Vec::new();
    assert_eq!(tc1(PROTO_IP_RAW, PACKET_HOST, &mut p2, &mut g2, -1, &mut c2), -1);
    assert!(!g2.seen_tc1);
    assert_eq!(p2[0], 0);
}

#[test]
fn tc_link_recorders() {
    let mut g = link_globals();
    assert_eq!(tc2(&mut g), -1);
    assert!(g.seen_tc2);
    assert_eq!(tc8(0xffff_ffff, 7, 32, 16, &mut g), 0);
    assert_eq!((g.mark, g.prio, g.headroom, g.tailroom), (-1, 7, 32, 16));
    assert!(g.seen_tc8);
}

#[test]
fn peer_redirects() {
    assert_eq!(tc_chk(), TC_ACT_SHOT);
    let mut calls = Vec::new();
    assert_eq!(tc_dst(3, 7, &mut calls), 7);
    assert!(calls[0] == PeerCall::RedirectPeer { ifindex: 3, flags: 0 });
    let mut mark: u32 = 0;
    assert_eq!(tc_dst_ing(&mut mark, 3, 4, 7, &mut calls), 7);
    assert_eq!(mark, 1);
    assert!(calls[1] == PeerCall::RedirectPeer { ifindex: 3, flags: 2 });
    tc_dst_ing(&mut mark, 3, 4, 7, &mut calls);
    assert!(calls[2] == PeerCall::Redirect { ifindex: 4 });
    let mut m2: u32 = 0;
    tc_src_ing(&mut m2, 3, 4, 7, &mut calls);
    assert!(calls[3] == PeerCall::RedirectPeer { ifindex: 4, flags: 2 });
}

#[test]
fn peer_l3_gets_ethernet_header() {
    let mut p = vec![0x45u8, 0, 0, 20];
    let mut calls = Vec::new();
    assert_eq!(tc_src_l3(&mut p, 0x0008, 9, 0, [0, 0, 0], 7, &mut calls), 7);
    assert_eq!(
        p,
        vec![0, 0x11, 0x22, 0x33, 0x44, 0x55, 0, 0x22, 0x33, 0x44, 0x55, 0x66, 0x08, 0x00, 0x45, 0, 0, 20]
    );
    assert_eq!(calls.len(), 5);
    assert!(calls[4] == PeerCall::RedirectPeer { ifindex: 9, flags: 0 });
    // A refused push drops and leaves the packet alone.
    let mut q = vec![1u8, 2];
    let mut c2 = Vec::new();
    assert_eq!(tc_src_l3(&mut q, 0x0008, 9, -12, [0, 0, 0], 7, &mut c2), TC_ACT_SHOT);
    assert_eq!(q, vec![1, 2]);
    // A refused second store leaves the first one's bytes.
    let mut s = vec![9u8];
    let mut c3 = Vec::new();
    assert_eq!(tc_src_l3(&mut s, 0x0008, 9, 0, [0, -1, 0], 7, &mut c3), TC_ACT_SHOT);
    assert_eq!(s[..6], [0, 0x11, 0x22, 0x33, 0x44, 0x55]);
    assert_eq!(s[6..15], [0, 0, 0, 0, 0, 0, 0, 0, 9]);
}
