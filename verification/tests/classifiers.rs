use bpf_progs::dtime::{
    bpf_fwd, egress_host, fwdns_clear_dtime, get_proto, ingress_host, row_for_test, skb_get_type, skb_ns, skb_proto,
    DtimeCounters, SkbTime, EGRESS_ENDHOST, EGRESS_ENDHOST_MAGIC, INGRESS_ENDHOST, TCP_IP4, UDP_IP4,
};
use bpf_progs::edt::{paced_segment, tc_prog, throttle_flow, EdtCall, EdtSkb};
use bpf_progs::estats::{
    _dummy_tracepoint, send_basic_event, unaligned_u32_set4, TCP_ESTATS_ADDRTYPE_IPV4, TCP_ESTATS_MAGIC,
};
use bpf_progs::scale::balancer_ingress;
use bpf_progs::scale_wide::balancer_ingress as balancer_ingress_wide;

#[test]
fn scale_hash_of_last_window() {
    let p: Vec<u8> = (0u8..20).collect();
    let mut idx: u32 = 5;
    assert_eq!(balancer_ingress(&p, 100, &mut idx), 0);
    assert_eq!(idx, 0x720cc9e7);
    let long: Vec<u8> = (0u8..200).collect();
    balancer_ingress(&long, 100, &mut idx);
    assert_eq!(idx, 0xdc434a5c);
    let mut kept: u32 = 5;
    balancer_ingress(&p[..13], 100, &mut kept);
    assert_eq!(kept, 5);
}

#[test]
fn wide_windows_hash_of_last_window() {
    let p: Vec<u8> = (0u8..40).collect();
    let mut idx: u32 = 5;
    assert_eq!(balancer_ingress_wide(&p, 100, &mut idx), 0);
    assert_eq!(idx, 0x77b37964);
    let long: Vec<u8> = (0u8..200).collect();
    balancer_ingress_wide(&long, 100, &mut idx);
    assert_eq!(idx, 0xc2eeaf45);
    let mut kept: u32 = 5;
    balancer_ingress_wide(&p[..31], 100, &mut kept);
    assert_eq!(kept, 5);
}

fn edt_skb(len: u32, tstamp: u64) -> EdtSkb {
    EdtSkb { protocol: 0x0008, len, tstamp }
}

#[test]
fn pacing_spaces_departures() {
    let mut flow: Option<u64> = None;
    let mut calls = Vec::new();
    // 1000 bytes at 1e6 bytes/s take 1 ms.
    let mut s1 = edt_skb(1000, 0);
    assert_eq!(throttle_flow(&mut s1, &mut flow, 1_000_000, 10_000, 0, &mut calls), 0);
    assert_eq!(flow, Some(10_000));
    assert_eq!(s1.tstamp, 0);
    let mut s2 = edt_skb(1000, 0);
    assert_eq!(throttle_flow(&mut s2, &mut flow, 1_000_000, 10_000, 0, &mut calls), 0);
    assert_eq!(s2.tstamp, 1_010_000);
    assert_eq!(flow, Some(1_010_000));
    assert!(calls[1] == EdtCall::StoreTstamp { tstamp: 1_010_000, flags: 2 });
    // Beyond 5 ms the packet is marked; beyond 2 s it is dropped.
    let mut far: Option<u64> = Some(10_000_000);
    let mut s3 = edt_skb(0, 0);
    let mut c3 = Vec::new();
    assert_eq!(throttle_flow(&mut s3, &mut far, 1_000_000, 0, 0, &mut c3), 0);
    assert!(c3[0] == EdtCall::EcnSetCe);
    let mut too_far: Option<u64> = Some(3_000_000_000);
    let mut s4 = edt_skb(0, 0);
    assert_eq!(throttle_flow(&mut s4, &mut too_far, 1_000_000, 0, 0, &mut Vec::new()), 2);
    assert_eq!(too_far, Some(3_000_000_000));
}

#[test]
fn paced_flow_is_port_9000() {
    let mut p = vec![0u8; 54];
    p[14] = 0x45;
    p[23] = 6;
    p[34..36].copy_from_slice(&9000u16.to_be_bytes());
    assert_eq!(paced_segment(&p), Some(true));
    p[35] = 0;
    assert_eq!(paced_segment(&p), Some(false));
    assert_eq!(paced_segment(&p[..40]), None);
    let mut udp = p.clone();
    udp[23] = 17;
    assert_eq!(paced_segment(&udp), Some(false));
    // Not IPv4: untouched.
    let mut s = EdtSkb { protocol: 0xdd86, len: 100, tstamp: 7 };
    let mut flow: Option<u64> = None;
    assert_eq!(tc_prog(&p, &mut s, &mut flow, 1, 0, 0, &mut Vec::new()), 0);
    assert_eq!(flow, None);
}

fn counters(test: u32) -> DtimeCounters {
    DtimeCounters { dtimes: vec![0; 70], errs: vec![0; 70], test }
}

/// An IPv4 frame from 172.16.1.100 of `proto` to port 50000 + `test`.
fn dtime_frame(proto: u8, test: u32) -> Vec<u8> {
    let mut p = vec![0u8; 54];
    p[12] = 0x08;
    p[14] = 0x45;
    p[23] = proto;
    p[26..30].copy_from_slice(&[172, 16, 1, 100]);
    p[30..34].copy_from_slice(&[172, 16, 2, 100]);
    p[36..38].copy_from_slice(&((50000 + test) as u16).to_be_bytes());
    p
}

#[test]
fn dtime_tables() {
    assert_eq!(row_for_test(3), 3);
    assert_eq!(row_for_test(42), 9);
    assert_eq!(get_proto(UDP_IP4), 17);
    assert_eq!(get_proto(TCP_IP4), 6);
    assert!(fwdns_clear_dtime(0));
    assert!(!fwdns_clear_dtime(1));
    assert!(!bpf_fwd(5));
    assert!(bpf_fwd(1));
    assert_eq!(skb_proto(0x0106), 6);
    assert_eq!(skb_ns(0x0106), 1);
}

#[test]
fn dtime_classification() {
    assert_eq!(skb_get_type(&dtime_frame(6, TCP_IP4), 0x0008, TCP_IP4), 0x0106);
    // Wrong protocol for the test, or another port: not test traffic.
    assert_eq!(skb_get_type(&dtime_frame(17, TCP_IP4), 0x0008, TCP_IP4), 0);
    assert_eq!(skb_get_type(&dtime_frame(6, 2), 0x0008, TCP_IP4), 0);
    assert_eq!(skb_get_type(&dtime_frame(6, TCP_IP4)[..40], 0x0008, TCP_IP4), -1);
    assert_eq!(skb_get_type(&dtime_frame(6, TCP_IP4), 0x0608, TCP_IP4), 0);
}

#[test]
fn dtime_endhost_checks() {
    let p = dtime_frame(6, TCP_IP4);
    let mut c = counters(TCP_IP4);
    let mut skb = SkbTime { protocol: 0x0008, tstamp: 123, tstamp_type: 1 };
    assert_eq!(egress_host(&p, &mut skb, &mut c), 0);
    assert_eq!(c.dtimes[(TCP_IP4 * 7 + EGRESS_ENDHOST) as usize], 1);
    assert_eq!(skb.tstamp, EGRESS_ENDHOST_MAGIC);
    let mut bad = SkbTime { protocol: 0x0008, tstamp: 0, tstamp_type: 1 };
    egress_host(&p, &mut bad, &mut c);
    assert_eq!(c.errs[(TCP_IP4 * 7 + EGRESS_ENDHOST) as usize], 1);
    // Ingress wants the forwarding namespace's marker.
    let arriving = SkbTime { protocol: 0x0008, tstamp: 0x2b9fbeef, tstamp_type: 1 };
    assert_eq!(ingress_host(&p, &arriving, &mut c), 0);
    assert_eq!(c.dtimes[(TCP_IP4 * 7 + INGRESS_ENDHOST) as usize], 1);
    let wrong = SkbTime { protocol: 0x0008, tstamp: 5, tstamp_type: 1 };
    ingress_host(&p, &wrong, &mut c);
    assert_eq!(c.errs[(TCP_IP4 * 7 + INGRESS_ENDHOST) as usize], 1);
}

#[test]
fn estats_event_of_socket() {
    let mut sk = vec![0u8; 64];
    sk[0] = 2;
    sk[8..12].copy_from_slice(&[10, 0, 0, 2]);
    sk[16..18].copy_from_slice(&[0x1f, 0x90]);
    sk[56..60].copy_from_slice(&[10, 0, 0, 1]);
    sk[60..62].copy_from_slice(&[0x30, 0x39]);
    let ev = send_basic_event(&sk, 8, 77);
    assert_eq!(ev.event.magic, TCP_ESTATS_MAGIC);
    assert_eq!((ev.event.ts, ev.event.event_type), (77, 8));
    assert_eq!(ev.conn_id.local_address_type, TCP_ESTATS_ADDRTYPE_IPV4);
    assert_eq!(&ev.conn_id.local_address[..4], &[10, 0, 0, 1]);
    assert_eq!(&ev.conn_id.rem_address[..4], &[10, 0, 0, 2]);
    assert_eq!(ev.conn_id.localport, 0x3930);
    assert_eq!(ev.conn_id.remport, 0x901f);
    assert!(_dummy_tracepoint(0, &sk, 1).1.is_none());
    let (r, e) = _dummy_tracepoint(0x1000, &sk, 1);
    assert_eq!(r, 0);
    assert_eq!(e.unwrap().event.event_type, 8);
    // A short socket reads as zeros.
    let ev2 = send_basic_event(&sk[..10], 8, 1);
    assert_eq!(ev2.conn_id.localport, 0);
    assert_eq!(&ev2.conn_id.rem_address[..4], &[10, 0, 0, 0]);
}

#[test]
fn socket_bytes_copied_anywhere() {
    let sk: Vec<u8> = (1u8..=10).collect();
    let mut d = [0xeeu8; 8];
    unaligned_u32_set4(&mut d, 4, &sk, 2);
    assert_eq!(d, [0xee, 0xee, 0xee, 0xee, 3, 4, 5, 6]);
    // bytes past the end of the socket's memory read as 0
    let mut e = [0xeeu8; 4];
    unaligned_u32_set4(&mut e, 0, &sk, 8);
    assert_eq!(e, [9, 10, 0, 0]);
}
