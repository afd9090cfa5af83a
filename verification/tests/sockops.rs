use bpf_progs::ctx::{bpf_sock_ops, BPF_SOCK_OPS_ACTIVE_ESTABLISHED_CB, BPF_SOCK_OPS_STATE_CB, BPF_SOCK_OPS_TCP_CONNECT_CB};
use bpf_progs::hdr_opt::{
    clear_hdr_cb_flags, handle_active_estab, libc_enoent, libc_enomsg, load_option, option_bytes, option_total_len,
    parse_test_option, ret_cg_err, search_bytes, set_hdr_cb_flags, set_option_flags, store_option,
    test_option_flags, write_test_option, bpf_test_option, hdr_stg, HdrAction, HdrAnswers, HdrOptGlobals, CG_ERR,
    CG_OK, ERR_ACTIVE_STG, ERR_STORE, OPTION_MAX_DELACK_MS, OPTION_RAND, OPTION_RESEND, TCPOPT_EXP,
};
use bpf_progs::tcpbpf::{bpf_testcb, get_tp_window_clamp, testcb_calls, tcpbpf_globals, SockOpsCall, TestcbAnswers};

fn sock_ops(op: u32) -> bpf_sock_ops {
    bpf_sock_ops {
        op,
        args: [0; 4],
        family: 2,
        remote_ip4: 0,
        local_ip4: 0,
        remote_ip6: [0; 4],
        local_ip6: [0; 4],
        remote_port: 0,
        local_port: 8080,
        is_fullsock: 1,
        snd_cwnd: 0,
        srtt_us: 0,
        bpf_sock_ops_cb_flags: 0,
        state: 0,
        rtt_min: 0,
        snd_ssthresh: 0,
        rcv_nxt: 0,
        snd_nxt: 0,
        snd_una: 0,
        mss_cache: 0,
        ecn_flags: 0,
        rate_delivered: 0,
        rate_interval_us: 0,
        packets_out: 0,
        retrans_out: 0,
        total_retrans: 3,
        segs_in: 0,
        data_segs_in: 4,
        segs_out: 0,
        data_segs_out: 5,
        lost_out: 0,
        sacked_out: 0,
        sk_txhash: 0,
        bytes_received: 6,
        bytes_acked: 7,
        sk: 0x1000,
        skb_data: 0,
        skb_data_end: 0,
        skb_len: 0,
        skb_tcp_flags: 0,
    }
}

fn opt(flags: u8, max_delack_ms: u8, rand: u8) -> bpf_test_option {
    bpf_test_option { flags, max_delack_ms, rand }
}

fn hdr_globals(kind: u8) -> HdrOptGlobals {
    HdrOptGlobals {
        test_kind: kind,
        test_magic: 0xeb9f,
        inherit_cb_flags: 0,
        passive_synack_out: opt(0, 0, 0),
        passive_fin_out: opt(0, 0, 0),
        passive_estab_in: opt(0, 0, 0),
        passive_fin_in: opt(0, 0, 0),
        active_syn_out: opt(0, 0, 0),
        active_fin_out: opt(0, 0, 0),
        active_estab_in: opt(0, 0, 0),
        active_fin_in: opt(0, 0, 0),
    }
}

fn answers() -> HdrAnswers {
    HdrAnswers {
        load_syn_ret: 0,
        load_syn_buf: [0; 8],
        load_pkt_ret: 0,
        load_pkt_buf: [0; 8],
        store_ret: 0,
        reserve_ret: 0,
        storage: None,
        storage_created: true,
        delack_ret: 0,
        rto_ret: 0,
        tcp_header: [0; 20],
    }
}

#[test]
fn option_flag_bits() {
    assert!(test_option_flags(0b110, OPTION_MAX_DELACK_MS));
    assert!(!test_option_flags(0b110, OPTION_RESEND));
    assert_eq!(set_option_flags(0, OPTION_RAND), 4);
    assert_eq!(set_option_flags(4, OPTION_RESEND), 5);
}

#[test]
fn option_lengths() {
    assert_eq!(option_total_len(0, TCPOPT_EXP), 0);
    assert_eq!(option_total_len(0b110, TCPOPT_EXP), 7);
    assert_eq!(option_total_len(0b110, 0xb7), 5);
    assert_eq!(option_total_len(0b001, TCPOPT_EXP), 5);
    assert_eq!(option_total_len(0b100, 0xb7), 4);
}

#[test]
fn option_write_then_parse() {
    let o = opt(0b111, 10, 0xfa);
    let mut d = [0u8; 4];
    write_test_option(&o, &mut d);
    assert_eq!(d, [7, 10, 0xfa, 0]);
    let mut back = opt(0, 1, 2);
    assert_eq!(parse_test_option(&mut back, &d), 0);
    assert!(back == o);
    // Only the rand field: it follows the flags directly.
    let o2 = opt(0b100, 99, 0x42);
    let mut d2 = [0u8; 4];
    write_test_option(&o2, &mut d2);
    assert_eq!(d2, [4, 0x42, 0, 0]);
    let mut back2 = opt(0, 5, 0);
    parse_test_option(&mut back2, &d2);
    assert!(back2 == opt(4, 5, 0x42));
}

#[test]
fn option_bytes_on_the_wire() {
    let g = hdr_globals(TCPOPT_EXP);
    assert_eq!(option_bytes(&opt(0b110, 10, 0xfa), &g), ([254, 7, 0xeb, 0x9f, 6, 10, 0xfa, 0], 8));
    assert_eq!(search_bytes(&g), ([254, 4, 0xeb, 0x9f, 0, 0, 0, 0], 8));
    let g2 = hdr_globals(0xb7);
    assert_eq!(option_bytes(&opt(0b010, 10, 0), &g2), ([0xb7, 4, 2, 10, 0, 0, 0, 0], 6));
    assert_eq!(search_bytes(&g2), ([0xb7, 0, 0, 0, 0, 0, 0, 0], 6));
}

#[test]
fn store_then_load_roundtrip() {
    let g = hdr_globals(TCPOPT_EXP);
    let s = sock_ops(15);
    let o = opt(0b011, 25, 0);
    let mut acts = Vec::new();
    assert_eq!(store_option(&s, &o, &g, &answers(), &mut acts), CG_OK);
    let stored = match acts[0] {
        HdrAction::StoreHdrOpt { opt, len } => {
            assert_eq!(len, 8);
            opt
        },
        _ => panic!("expected a store"),
    };
    // The peer's kernel hands back the bytes that were stored.
    let k = HdrAnswers { load_pkt_buf: stored, ..answers() };
    let mut got = opt(0, 0, 0);
    assert_eq!(load_option(&mut got, false, &g, &k, &mut acts), 0);
    assert!(got == o);
    // A failed load leaves the option alone and gives the error back.
    let k2 = HdrAnswers { load_pkt_ret: -(libc_enomsg() as i64), ..answers() };
    let mut kept = opt(1, 2, 3);
    assert_eq!(load_option(&mut kept, false, &g, &k2, &mut acts), -42);
    assert!(kept == opt(1, 2, 3));
    assert_eq!(libc_enoent(), 2);
}

#[test]
fn failed_store_reports_error() {
    let g = hdr_globals(TCPOPT_EXP);
    let s = sock_ops(15);
    let mut acts = Vec::new();
    let k = HdrAnswers { store_ret: -28, ..answers() };
    assert_eq!(store_option(&s, &opt(1, 0, 0), &g, &k, &mut acts), CG_ERR);
    assert_eq!(acts.len(), 4);
    match acts[1] {
        HdrAction::ReportError { lport, le } => {
            assert_eq!(lport, 8080);
            assert_eq!((le.linum, le.err), (ERR_STORE, -28));
            assert_eq!(le.linum, 373);
        },
        _ => panic!("expected an error report"),
    }
    let mut a2 = Vec::new();
    assert_eq!(ret_cg_err(&s, -1, 99, &mut a2), CG_ERR);
    assert!(matches!(a2[2], HdrAction::ClearParseAllHdrCbFlags));
}

#[test]
fn callback_flag_words() {
    assert_eq!(clear_hdr_cb_flags(0xff), 0xff & !(32 | 64));
    assert_eq!(set_hdr_cb_flags(0, 4), 32 | 64 | 4);
}

#[test]
fn active_established_reads_peer_option() {
    let mut g = hdr_globals(TCPOPT_EXP);
    let s = sock_ops(BPF_SOCK_OPS_ACTIVE_ESTABLISHED_CB);
    let k = HdrAnswers { load_pkt_buf: [254, 6, 0xeb, 0x9f, 0b001, 0, 0, 0], ..answers() };
    let mut acts = Vec::new();
    assert_eq!(handle_active_estab(&s, &mut g, &k, &mut acts), CG_OK);
    assert!(g.active_estab_in == opt(1, 0, 0));
    // The resend flag asks for every header's options.
    assert!(acts.iter().any(|a| matches!(a, HdrAction::SetParseAllHdrCbFlags)));
    assert!(acts.iter().any(|a| matches!(
        a,
        HdrAction::SkStorageGet { init: hdr_stg { active: true, resend_syn: true, .. }, create: true }
    )));
    // Without storage the run fails at that check.
    let mut g2 = hdr_globals(TCPOPT_EXP);
    let k2 = HdrAnswers { storage_created: false, ..k };
    let mut a2 = Vec::new();
    assert_eq!(handle_active_estab(&s, &mut g2, &k2, &mut a2), CG_ERR);
    assert!(a2.iter().any(|a| matches!(a, HdrAction::ReportError { le, .. } if le.linum == ERR_ACTIVE_STG)));
}

fn tcpbpf_zero() -> tcpbpf_globals {
    tcpbpf_globals {
        event_map: 0,
        total_retrans: 0,
        data_segs_in: 0,
        data_segs_out: 0,
        bad_cb_test_rv: 0,
        good_cb_test_rv: 0,
        bytes_received: 0,
        bytes_acked: 0,
        num_listen: 0,
        num_close_events: 0,
        tcp_save_syn: 0,
        tcp_saved_syn: 0,
        window_clamp_client: 0,
        window_clamp_server: 0,
    }
}

fn testcb_answers() -> TestcbAnswers {
    TestcbAnswers {
        set_window_clamp: 0,
        tcp_sock_window_clamp: Some(9216),
        cb_flags_bad: -22,
        cb_flags_good: 0,
        set_tclass: 0,
        saved_syn: 0,
        saved_syn_header: [0; 60],
        set_save_syn: 0,
    }
}

#[test]
fn window_clamp_of_socket() {
    assert_eq!(get_tp_window_clamp(0, Some(5)), -1);
    assert_eq!(get_tp_window_clamp(1, None), -1);
    assert_eq!(get_tp_window_clamp(1, Some(9216)), 9216);
}

#[test]
fn connect_callback_sets_clamp() {
    let mut s = sock_ops(BPF_SOCK_OPS_TCP_CONNECT_CB);
    let calls = testcb_calls(&s);
    assert_eq!(calls.len(), 2);
    assert!(calls[0] == SockOpsCall::SetSockOpt { level: 6, optname: 10, optval: 9216 });
    assert!(calls[1] == SockOpsCall::TcpSockWindowClamp);
    let mut g = tcpbpf_zero();
    assert_eq!(bpf_testcb(&mut s, &mut g, &testcb_answers()), 1);
    assert_eq!(g.window_clamp_client, 9216);
    assert_eq!(g.event_map, 1 << 3);
    assert_eq!(s.args[0], 0);
}

#[test]
fn close_of_connection_copies_totals() {
    let mut s = sock_ops(BPF_SOCK_OPS_STATE_CB);
    s.args = [1, 7, 0, 0];
    let mut g = tcpbpf_zero();
    bpf_testcb(&mut s, &mut g, &testcb_answers());
    assert_eq!((g.total_retrans, g.data_segs_in, g.data_segs_out), (3, 4, 5));
    assert_eq!((g.bytes_received, g.bytes_acked), (6, 7));
    assert_eq!((g.num_close_events, g.num_listen), (1, 0));
    assert_eq!(s.args[0], 0xffff_ffff);
    // A listener's close counts a listener.
    let mut l = sock_ops(BPF_SOCK_OPS_STATE_CB);
    l.args = [10, 7, 0, 0];
    bpf_testcb(&mut l, &mut g, &testcb_answers());
    assert_eq!((g.num_close_events, g.num_listen), (2, 1));
}

#[test]
fn active_established_records_flag_results() {
    let mut s = sock_ops(BPF_SOCK_OPS_ACTIVE_ESTABLISHED_CB);
    let mut g = tcpbpf_zero();
    bpf_testcb(&mut s, &mut g, &testcb_answers());
    assert_eq!(g.bad_cb_test_rv, (-22i64) as u32);
    assert_eq!(g.good_cb_test_rv, 0);
}
