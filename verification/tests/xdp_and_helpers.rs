use bpf_progs::ctx::xdp_md;
use bpf_progs::dtime::{inc_dtimes, inc_errs, DtimeCounters, TCP_IP4};
use bpf_progs::meta::{
    helper_skb_adjust_room, helper_skb_change_head_tail, helper_skb_change_proto, helper_skb_vlan_push_pop,
    SkbHelperCall, StreamReport, META_WANT,
};
use bpf_progs::tunnel::set_ipv4_csum;
use bpf_progs::vlan::{tc_vlan_push, VlanTag};
use bpf_progs::redirect::{xdp_redirect_to_111, xdp_redirect_to_222, RedirectCall};
use bpf_progs::xdp_progs::{
    cls, tc_handler, xdp_dummy_cm_frags, xdp_dummy_dm_frags, xdp_dummy_prog, xdp_handler, xdp_redir_prog,
    pkt_ptr, qevent_redirect_helper, qevent_redirect_verdict, xdp_context, xdp_devmap, xdp_dummy_cm, xdp_dummy_dm,
    xdp_entry, xdpdm_devlog, DevmapLog, TailCallOr, TCX_REDIRECT,
};

fn ctx(data: u32, data_end: u32, ingress: u32, egress: u32) -> xdp_md {
    xdp_md { data, data_end, data_meta: data, ingress_ifindex: ingress, rx_queue_index: 0, egress_ifindex: egress }
}

#[test]
fn test_run_context_reads_metadata_word() {
    assert_eq!(xdp_context(&[0x02, 0, 0, 0, 9, 9], 0), 2);
    assert_eq!(xdp_context(&[0x78, 0x56, 0x34, 0x12], 0), 0x1234_5678);
    assert_eq!(xdp_context(&[1, 2, 3], 0), 0);
    assert_eq!(xdp_context(&[2, 0, 0, 0], -22), 0);
}

#[test]
fn devmap_programs_log_and_pass() {
    let c = ctx(100, 164, 3, 7);
    let (r, log) = xdpdm_devlog(&c);
    assert_eq!(r, 2);
    assert!(log == DevmapLog { ingress_ifindex: 3, egress_ifindex: 7, len: 64 });
    let (r2, log2) = xdp_dummy_dm(&c);
    assert_eq!(r2, 2);
    assert!(log2 == log);
    assert!(xdp_devmap(&c) == TailCallOr { index: 1, verdict: 7 });
    assert!(xdp_entry() == TailCallOr { index: 0, verdict: 0 });
}

#[test]
fn cpumap_program_counts_and_drops_loopback() {
    let mut n: u32 = 0;
    assert_eq!(xdp_dummy_cm(0, &ctx(0, 60, 1, 0), &mut n), 1);
    assert_eq!(xdp_dummy_cm(1, &ctx(0, 60, 2, 0), &mut n), 2);
    assert_eq!(xdp_dummy_cm(0, &ctx(0, 60, 2, 0), &mut n), 2);
    assert_eq!(n, 2);
}

#[test]
fn bounds_and_qevent_programs() {
    assert_eq!(pkt_ptr(&[0u8; 33]), 1);
    assert_eq!(pkt_ptr(&[0u8; 34]), 0);
    let mut v: u64 = 0;
    assert_eq!(qevent_redirect_verdict(&mut v), TCX_REDIRECT);
    assert_eq!(v, 1);
    let mut h: u64 = 0;
    assert_eq!(qevent_redirect_helper(4, 7, &mut h), (4, 7));
    assert_eq!(h, 1);
}

fn good_meta() -> Vec<u8> {
    META_WANT.to_vec()
}

#[test]
fn vlan_helper_test_passes_when_all_succeed() {
    let mut pass = false;
    let mut calls = Vec::new();
    let mut reports = Vec::new();
    let metas = vec![good_meta(), good_meta()];
    assert_eq!(helper_skb_vlan_push_pop(&[0, 0, 0, 0], &metas, &mut pass, &mut calls, &mut reports), 2);
    assert!(pass);
    assert!(reports.is_empty());
    assert!(calls == vec![
        SkbHelperCall::VlanPush { vlan_proto: 0, vlan_tci: 42 },
        SkbHelperCall::VlanPush { vlan_proto: 0, vlan_tci: 207 },
        SkbHelperCall::VlanPop,
        SkbHelperCall::VlanPop,
    ]);
    // a lost pattern after the pushes stops the test before the pops
    let mut pass2 = false;
    let mut calls2 = Vec::new();
    let bad = vec![vec![0u8; 32], good_meta()];
    helper_skb_vlan_push_pop(&[0, 0, 0, 0], &bad, &mut pass2, &mut calls2, &mut reports);
    assert!(!pass2);
    assert_eq!(calls2.len(), 2);
    assert!(reports == vec![StreamReport::MetadataMismatch]);
}

#[test]
fn room_head_tail_and_proto_tests() {
    let metas = vec![good_meta(), good_meta(), good_meta()];
    let mut pass = false;
    let mut calls = Vec::new();
    let mut reports = Vec::new();
    helper_skb_adjust_room(&[0, -12, 0], &metas, &mut pass, &mut calls, &mut reports);
    assert!(!pass);
    assert!(calls == vec![SkbHelperCall::AdjustRoom { len_diff: 1 }, SkbHelperCall::AdjustRoom { len_diff: -1 }]);
    let mut pass2 = false;
    let mut calls2 = Vec::new();
    helper_skb_change_head_tail(100, &[0, 0, 0], &metas, &mut pass2, &mut calls2, &mut reports);
    assert!(pass2);
    assert!(calls2[2] == SkbHelperCall::ChangeTail { len: 4196 });
    let mut pass3 = false;
    let mut calls3 = Vec::new();
    let short = vec![good_meta(), vec![1u8; 8]];
    helper_skb_change_proto(&[0, 0], &short, &mut pass3, &mut calls3, &mut reports);
    assert!(!pass3);
    // too short an area fails the check without a report
    assert!(reports.is_empty());
    assert!(calls3 == vec![SkbHelperCall::ChangeProto { proto: 0xdd86 }, SkbHelperCall::ChangeProto { proto: 0x0008 }]);
}

#[test]
fn vlan_push_classifier() {
    let (r, tag) = tc_vlan_push();
    assert_eq!(r, 0);
    assert!(tag == VlanTag { proto: 0x0081, tci: 4011 });
}

#[test]
fn ipv4_checksum_is_set() {
    // 45 00 00 73 00 00 40 00 40 11 [b8 61] c0 a8 00 01 c0 a8 00 c7
    let mut h = vec![
        0x45, 0x00, 0x00, 0x73, 0x00, 0x00, 0x40, 0x00, 0x40, 0x11, 0x12, 0x34, 0xc0, 0xa8, 0x00, 0x01, 0xc0, 0xa8,
        0x00, 0xc7,
    ];
    set_ipv4_csum(&mut h);
    assert_eq!(&h[10..12], &[0xb8, 0x61]);
}

#[test]
fn dtime_counter_columns() {
    let mut c = DtimeCounters { dtimes: vec![0; 70], errs: vec![0; 70], test: TCP_IP4 };
    inc_dtimes(&mut c, 2);
    inc_errs(&mut c, 3);
    inc_errs(&mut c, 3);
    assert_eq!(c.dtimes[(TCP_IP4 * 7 + 2) as usize], 1);
    assert_eq!(c.errs[(TCP_IP4 * 7 + 3) as usize], 2);
    assert_eq!(c.dtimes.iter().map(|x| *x as u64).sum::<u64>(), 1);
}

#[test]
fn fixed_verdict_and_redirect_programs() {
    assert_eq!(xdp_redir_prog(4), (0, 4));
    assert_eq!(xdp_redir_prog(-22), (0, -22));
    assert_eq!((xdp_dummy_prog(), xdp_dummy_cm_frags(), xdp_dummy_dm_frags()), (2, 2, 2));
    assert_eq!((xdp_handler(), tc_handler(), cls()), (0, 0, 0));
    let mut calls = Vec::new();
    assert_eq!(xdp_redirect_to_111(4, &mut calls), 4);
    assert_eq!(xdp_redirect_to_222(0, &mut calls), 0);
    assert!(calls == vec![RedirectCall::Redirect { ifindex: 111 }, RedirectCall::Redirect { ifindex: 222 }]);
}
