use bpf_progs::checksum::{csum_fold, csum_partial, csum_tcpudp_magic, ipv4_check};
use bpf_progs::syncookie::{
    find_mssind, get_tcp_doff, tcp_ack_flag, tcp_custom_syncookie, tcp_handle_ack, tcp_handle_syn, tcp_load_headers,
    tcp_lookup_tuple, tcp_parse_options, tcp_prepare_cookie, tcp_reload_headers, tcp_rst, tcp_syn_flag,
    tcp_validate_cookie, tcp_validate_header, tcp_validate_sysctl, AckAction, SockLookup, SyncookieAction, TcpReqAttrs,
    TCP_LISTEN,
};

/// An IPv4 TCP segment from 10.0.0.1:0x1234 to 10.0.0.2:80 with the given
/// sequence and acknowledgement numbers, flags and options (a multiple of
/// four bytes), with a valid IP header checksum.
fn segment(seq: u32, ack: u32, flags: u8, opts: &[u8]) -> Vec<u8> {
    let tcp_len: usize = 20 + opts.len();
    let mut p = vec![2u8, 0, 0, 0, 0, 2, 2, 0, 0, 0, 0, 1, 0x08, 0x00];
    let tot = (20 + tcp_len) as u16;
    let mut ip = vec![0x45u8, 0, (tot >> 8) as u8, tot as u8, 0, 1, 0x40, 0, 0x40, 6, 0, 0, 10, 0, 0, 1, 10, 0, 0, 2];
    let c = ipv4_check(&ip);
    ip[10] = c as u8;
    ip[11] = (c >> 8) as u8;
    p.extend_from_slice(&ip);
    p.extend_from_slice(&[0x12, 0x34, 0x00, 0x50]);
    p.extend_from_slice(&seq.to_be_bytes());
    p.extend_from_slice(&ack.to_be_bytes());
    p.push(((tcp_len / 4) as u8) << 4);
    p.push(flags);
    p.extend_from_slice(&[0xff, 0xff, 0, 0, 0, 0]);
    p.extend_from_slice(opts);
    p
}

/// SYN options: MSS 65495, SACK permitted, timestamps (1, 0), NOP, window
/// scale 7.
fn syn_options() -> Vec<u8> {
    vec![2, 4, 0xff, 0xd7, 4, 2, 8, 10, 0, 0, 0, 1, 0, 0, 0, 0, 1, 3, 3, 7]
}

/// The packet grown to the length the program resizes it to.
fn resized(p: &[u8]) -> Vec<u8> {
    let h = tcp_load_headers(p).unwrap();
    let len = tcp_reload_headers(p, h).unwrap() as usize;
    let mut q = p.to_vec();
    q.resize(len, 0);
    q
}

#[test]
fn classifies_segments() {
    let syn = segment(0x01020304, 0, 0xc2, &syn_options());
    assert!(matches!(tcp_custom_syncookie(&syn), SyncookieAction::Syn(h) if h.ipv4 && h.tcp_off == 34));
    let ack = segment(5, 6, 0x10, &[]);
    assert!(matches!(tcp_custom_syncookie(&ack), SyncookieAction::Ack(_)));
    let rst = segment(5, 6, 0x04, &[]);
    assert!(matches!(tcp_custom_syncookie(&rst), SyncookieAction::Pass));
    let synack = segment(5, 6, 0x12, &[]);
    assert!(matches!(tcp_custom_syncookie(&synack), SyncookieAction::Pass));
    // Not IPv4/IPv6, or truncated.
    let mut arp = syn.clone();
    arp[12] = 0x08;
    arp[13] = 0x06;
    assert!(matches!(tcp_custom_syncookie(&arp), SyncookieAction::Pass));
    assert!(matches!(tcp_custom_syncookie(&syn[..50]), SyncookieAction::Pass));
}

#[test]
fn header_fields() {
    let syn = segment(1, 0, 0xc2, &syn_options());
    let h = tcp_load_headers(&syn).unwrap();
    assert!(tcp_syn_flag(&syn, h));
    assert!(!tcp_ack_flag(&syn, h));
    assert!(!tcp_rst(&syn, h));
    assert_eq!(get_tcp_doff(&syn, h), 10);
    // 74 bytes with a 40-byte TCP header grow to a 60-byte one.
    assert_eq!(syn.len(), 74);
    assert_eq!(tcp_reload_headers(&syn, h), Some(94));
    let t = tcp_lookup_tuple(&syn, h);
    assert_eq!(t.saddr, vec![10, 0, 0, 1]);
    assert_eq!(t.daddr, vec![10, 0, 0, 2]);
    assert_eq!(t.sport, 0x3412);
    assert_eq!(t.dport, 0x5000);
}

#[test]
fn parses_syn_options() {
    let q = resized(&segment(1, 0, 0xc2, &syn_options()));
    let h = tcp_load_headers(&q).unwrap();
    assert!(tcp_validate_header(&q, h));
    let a = tcp_parse_options(&q, h);
    assert_eq!(a.mss, 65495);
    assert_eq!(a.wscale_ok, 1);
    assert_eq!(a.snd_wscale, 7);
    assert_eq!(a.sack_ok, 1);
    assert_eq!(a.tstamp_ok, 1);
    assert_eq!(a.rcv_tsval, 1);
    assert_eq!(a.rcv_tsecr, 0);
    assert!(tcp_validate_sysctl(&a, &q, h));
    // Without ECE and CWR the SYN is refused.
    let q2 = resized(&segment(1, 0, 0x02, &syn_options()));
    let a2 = tcp_parse_options(&q2, h);
    assert!(!tcp_validate_sysctl(&a2, &q2, h));
}

#[test]
fn bad_ip_checksum_is_refused() {
    let mut q = resized(&segment(1, 0, 0xc2, &syn_options()));
    let h = tcp_load_headers(&q).unwrap();
    q[24] ^= 1;
    assert!(!tcp_validate_header(&q, h));
    assert!(tcp_handle_syn(Some(&q), h, 0).is_none());
    assert!(tcp_handle_syn(None, h, 0).is_none());
}

#[test]
fn mss_table_index() {
    let tab = [536u16, 1300, 1460, 65495];
    assert_eq!(find_mssind(&tab, 65495), 3);
    assert_eq!(find_mssind(&tab, 1460), 2);
    assert_eq!(find_mssind(&tab, 1459), 1);
    assert_eq!(find_mssind(&tab, 100), 0);
}

#[test]
fn cookie_value() {
    let q = resized(&segment(0x01020304, 0, 0xc2, &syn_options()));
    let h = tcp_load_headers(&q).unwrap();
    let a = tcp_parse_options(&q, h);
    let (cookie, a2) = tcp_prepare_cookie(&q, h, a, 0xabcdef00);
    // SipHash of the addresses, sequence number and ports is 0xcd20b051;
    // its low byte is replaced by MSS index 3, window scale 7, SACK, ECN.
    assert_eq!(cookie, 0xcd20b0f7);
    assert_eq!(a2.rcv_tsecr, 0xabcdef51);
    assert_eq!(a2.mss, 65495);
}

#[test]
fn synack_answers_syn() {
    let q = resized(&segment(0x01020304, 0, 0xc2, &syn_options()));
    let h = tcp_load_headers(&q).unwrap();
    let out = tcp_handle_syn(Some(&q), h, 0xabcdef00).unwrap();
    assert_eq!(out.len(), 14 + 20 + 40);
    // Ethernet addresses swapped.
    assert_eq!(&out[0..6], &[2, 0, 0, 0, 0, 1]);
    assert_eq!(&out[6..12], &[2, 0, 0, 0, 0, 2]);
    // IP: length 60, TTL 64, addresses swapped, checksum verifies.
    assert_eq!(&out[16..18], &[0, 60]);
    assert_eq!(out[22], 64);
    assert_eq!(&out[26..30], &[10, 0, 0, 2]);
    assert_eq!(&out[30..34], &[10, 0, 0, 1]);
    assert_eq!(csum_fold(csum_partial(&out, 14, 10)), 0);
    // TCP: ports swapped, cookie as sequence number, SYN's + 1 acknowledged,
    // SYN|ACK|ECE, 40-byte header.
    assert_eq!(&out[34..38], &[0x00, 0x50, 0x12, 0x34]);
    assert_eq!(&out[38..42], &0xcd20b0f7u32.to_be_bytes());
    assert_eq!(&out[42..46], &0x01020305u32.to_be_bytes());
    assert_eq!(out[46], 0xa0);
    assert_eq!(out[47], 0x52);
    // Options: MSS, window scale, SACK + timestamps (server's value first).
    assert_eq!(
        &out[54..74],
        &[2, 4, 0xff, 0xd7, 1, 3, 3, 7, 4, 2, 8, 10, 0xab, 0xcd, 0xef, 0x51, 0, 0, 0, 1]
    );
    // The TCP checksum verifies over the pseudo header.
    let sum = csum_partial(&out, 34, 20);
    let saddr = u32::from_le_bytes([out[26], out[27], out[28], out[29]]);
    let daddr = u32::from_le_bytes([out[30], out[31], out[32], out[33]]);
    assert_eq!(csum_tcpudp_magic(saddr, daddr, 40, 6, sum), 0);
}

#[test]
fn syncookie_roundtrip_assigns_request() {
    let q = resized(&segment(0x01020304, 0, 0xc2, &syn_options()));
    let h = tcp_load_headers(&q).unwrap();
    let out = tcp_handle_syn(Some(&q), h, 0xabcdef00).unwrap();
    let cookie = u32::from_be_bytes([out[38], out[39], out[40], out[41]]);
    let server_ts = u32::from_be_bytes([out[66], out[67], out[68], out[69]]);
    // The client's last ACK: NOP, NOP, timestamps (2, server's).
    let mut opts = vec![1u8, 1, 8, 10, 0, 0, 0, 2];
    opts.extend_from_slice(&server_ts.to_be_bytes());
    let ack = segment(0x01020305, cookie.wrapping_add(1), 0x10, &opts);
    let ha = match tcp_custom_syncookie(&ack) {
        SyncookieAction::Ack(h) => h,
        _ => panic!("not an ACK"),
    };
    let qa = resized(&ack);
    let lookup = SockLookup::Found { state: TCP_LISTEN, is_tcp_sock: true };
    match tcp_handle_ack(lookup, Some(&qa), ha) {
        AckAction::Assign(a) => {
            assert_eq!(a.mss, 65495);
            assert_eq!(a.snd_wscale, 7);
            assert_eq!(a.rcv_wscale, 7);
            assert_eq!(a.wscale_ok, 0);
            assert_eq!(a.sack_ok, 0x10);
            assert_eq!(a.ecn_ok, 0x20);
            assert_eq!(a.tstamp_ok, 1);
            assert_eq!(a.rcv_tsval, 2);
            assert_eq!(a.rcv_tsecr, 0xabcdef51);
        },
        _ => panic!("cookie not accepted"),
    }
}

#[test]
fn echoed_timestamp_checked_by_low_byte() {
    let q = resized(&segment(0x01020304, 0, 0xc2, &syn_options()));
    let h = tcp_load_headers(&q).unwrap();
    let out = tcp_handle_syn(Some(&q), h, 0xabcdef00).unwrap();
    let cookie = u32::from_be_bytes([out[38], out[39], out[40], out[41]]);
    // The server sent 0xabcdef51; only its low byte is checked.
    let mut opts = vec![1u8, 1, 8, 10, 0, 0, 0, 2];
    opts.extend_from_slice(&0x12345651u32.to_be_bytes());
    let ack = segment(0x01020305, cookie.wrapping_add(1), 0x10, &opts);
    let ha = tcp_load_headers(&ack).unwrap();
    let qa = resized(&ack);
    let lookup = SockLookup::Found { state: TCP_LISTEN, is_tcp_sock: true };
    assert!(matches!(tcp_handle_ack(lookup, Some(&qa), ha), AckAction::Assign(a) if a.mss == 65495));
    // Another low byte fails the check.
    let mut bad = vec![1u8, 1, 8, 10, 0, 0, 0, 2];
    bad.extend_from_slice(&0xabcdef52u32.to_be_bytes());
    let ack2 = segment(0x01020305, cookie.wrapping_add(1), 0x10, &bad);
    let h2 = tcp_load_headers(&ack2).unwrap();
    let q2 = resized(&ack2);
    let listen = SockLookup::Found { state: TCP_LISTEN, is_tcp_sock: true };
    assert!(matches!(tcp_handle_ack(listen, Some(&q2), h2), AckAction::Shot));
}

#[test]
fn forged_cookie_is_dropped() {
    let opts = vec![1u8, 1, 8, 10, 0, 0, 0, 2, 0xab, 0xcd, 0xef, 0x51];
    let ack = segment(0x01020305, 0xcd21b0f8, 0x10, &opts);
    let h = tcp_load_headers(&ack).unwrap();
    let qa = resized(&ack);
    let a = tcp_parse_options(&qa, h);
    assert!(tcp_validate_cookie(&qa, h, a).is_none());
    let lookup = SockLookup::Found { state: TCP_LISTEN, is_tcp_sock: true };
    assert!(matches!(tcp_handle_ack(lookup, Some(&qa), h), AckAction::Shot));
}

#[test]
fn ack_lookup_outcomes() {
    let ack = segment(5, 6, 0x10, &[]);
    let h = tcp_load_headers(&ack).unwrap();
    let q = resized(&ack);
    assert!(matches!(tcp_handle_ack(SockLookup::Missing, Some(&q), h), AckAction::Pass));
    let established = SockLookup::Found { state: 1, is_tcp_sock: true };
    assert!(matches!(tcp_handle_ack(established, Some(&q), h), AckAction::Pass));
    let not_tcp = SockLookup::Found { state: TCP_LISTEN, is_tcp_sock: false };
    assert!(matches!(tcp_handle_ack(not_tcp, Some(&q), h), AckAction::Shot));
    let listen = SockLookup::Found { state: TCP_LISTEN, is_tcp_sock: true };
    assert!(matches!(tcp_handle_ack(listen, None, h), AckAction::Shot));
}

#[test]
fn new_attrs_are_zero() {
    let a = TcpReqAttrs::new();
    assert_eq!((a.mss, a.rcv_tsval, a.rcv_tsecr, a.sack_ok, a.tstamp_ok), (0, 0, 0, 0, 0));
}
