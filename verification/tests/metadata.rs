use bpf_progs::meta::{
    bytes_eq, check_metadata, check_skb_metadata, clone_data_meta_survives_data_write,
    clone_data_meta_survives_meta_write, ing_cls, ing_xdp, ing_xdp_zalloc_meta, is_test_packet, stream_report_mismatch,
    tc_is_meta_empty, StreamReport, BPF_STDERR, META_WANT,
};
use bpf_progs::meta_dynptr::{
    clone_meta_dynptr_rw_before_data_dynptr_write, clone_meta_dynptr_rw_before_meta_dynptr_write,
    clone_meta_dynptr_survives_data_slice_write, clone_meta_dynptr_survives_meta_slice_write, dummy_lwt_xmit,
    dynptr_adjust, dynptr_from, dynptr_read, dynptr_slice, dynptr_write, ing_cls_dynptr_offset_oob,
    ing_cls_dynptr_offset_rd, ing_cls_dynptr_offset_wr, ing_cls_dynptr_read, ing_cls_dynptr_slice,
    ing_cls_dynptr_slice_rdwr, ing_cls_dynptr_write, Dynptr, E2BIG, EINVAL, ERANGE,
};

/// A test packet: Ethernet header, the pattern, more bytes, the pattern.
fn test_packet() -> Vec<u8> {
    let mut p = vec![0u8; 14];
    p.extend_from_slice(&META_WANT);
    p.extend_from_slice(&[7u8; 10]);
    p.extend_from_slice(&META_WANT);
    p
}

#[test]
fn pattern_checks() {
    let mut reports = Vec::new();
    assert!(bytes_eq(&META_WANT, &META_WANT));
    assert!(check_metadata(&META_WANT, &mut reports));
    assert!(reports.is_empty());
    let mut m = META_WANT.to_vec();
    m[31] = 0;
    assert!(!check_metadata(&m, &mut reports));
    assert!(reports == vec![StreamReport::MetadataMismatch]);
    assert!(check_skb_metadata(&META_WANT, &mut reports));
    // too short an area is refused without a report
    assert!(!check_skb_metadata(&META_WANT[..31], &mut reports));
    assert_eq!(reports.len(), 1);
    assert!(!check_skb_metadata(&m, &mut reports));
    assert_eq!(reports.len(), 2);
    assert!(is_test_packet(&test_packet()));
    assert!(!is_test_packet(&META_WANT[..20]));
}

#[test]
fn mismatch_report_line() {
    let mut reports = Vec::new();
    stream_report_mismatch(&mut reports);
    assert_eq!(reports.len(), 1);
    assert_eq!(reports[0].stream(), BPF_STDERR);
    assert_eq!(BPF_STDERR, 2);
    assert_eq!(reports[0].text(), "FAIL: metadata mismatch\n");
}

#[test]
fn xdp_stores_pattern() {
    let (v, m) = ing_xdp(&test_packet(), 0);
    assert_eq!(v, 2);
    assert_eq!(m, Some(META_WANT));
    assert_eq!(ing_xdp(&test_packet(), -1), (1, None));
    assert_eq!(ing_xdp(&[0u8; 40], 0), (1, None));
    assert_eq!(ing_xdp_zalloc_meta(&test_packet(), 0), (2, Some([0u8; 32])));
}

#[test]
fn classifiers_note_passes() {
    let mut pass = false;
    let mut reports = Vec::new();
    assert_eq!(ing_cls(&META_WANT[..20], &mut pass, &mut reports), 2);
    assert!(!pass);
    assert!(reports.is_empty());
    ing_cls(&META_WANT, &mut pass, &mut reports);
    assert!(pass);
    assert!(reports.is_empty());
    let mut other = false;
    ing_cls(&[0u8; 32], &mut other, &mut reports);
    assert!(!other);
    assert!(reports == vec![StreamReport::MetadataMismatch]);
    let mut empty = false;
    assert_eq!(tc_is_meta_empty(&test_packet(), 0, &mut empty), 0);
    assert!(empty);
    let mut not_empty = false;
    tc_is_meta_empty(&test_packet(), 32, &mut not_empty);
    assert!(!not_empty);
}

#[test]
fn clone_writes() {
    let mut p = test_packet();
    let mut pass = false;
    let mut reports = Vec::new();
    clone_data_meta_survives_data_write(&META_WANT, &mut p, &mut pass, &mut reports);
    assert!(pass);
    assert_eq!(&p[12..14], &[42, 0]);
    let mut meta = META_WANT.to_vec();
    let mut pass2 = false;
    clone_data_meta_survives_meta_write(&mut meta, &test_packet(), &mut pass2, &mut reports);
    assert!(pass2);
    assert_eq!(meta[0], 42);
    assert!(reports.is_empty());
    // the first byte now differs: a mismatch, reported once
    let mut pass3 = false;
    clone_data_meta_survives_meta_write(&mut meta, &test_packet(), &mut pass3, &mut reports);
    assert!(!pass3);
    assert!(reports == vec![StreamReport::MetadataMismatch]);
}

#[test]
fn dynptr_window_operations() {
    let buf = (0u8..16).collect::<Vec<u8>>();
    let mut d = dynptr_from(16);
    let mut dst = vec![0u8; 4];
    assert_eq!(dynptr_read(&mut dst, 0, 4, &buf, &d, 12), 0);
    assert_eq!(dst, vec![12, 13, 14, 15]);
    assert_eq!(dynptr_read(&mut dst, 0, 4, &buf, &d, 13), -E2BIG);
    assert_eq!(dynptr_adjust(&mut d, 4, 10), 0);
    assert_eq!((d.off, d.size), (4, 6));
    assert_eq!(dynptr_adjust(&mut d, 0, 7), -ERANGE);
    assert_eq!(dynptr_adjust(&mut d, 5, 2), -EINVAL);
    assert_eq!(dynptr_slice(&d, 2, 4, false), Some(6));
    assert_eq!(dynptr_slice(&d, 3, 4, false), None);
    let mut b = buf.clone();
    assert_eq!(dynptr_write(&mut b, &d, 1, &[0xee, 0xff], 0, 2), 0);
    assert_eq!(&b[4..8], &[4, 0xee, 0xff, 7]);
    let ro = Dynptr { off: 0, size: 16, rdonly: true };
    assert_eq!(dynptr_write(&mut b, &ro, 0, &[1], 0, 1), -EINVAL);
    assert_eq!(dynptr_slice(&ro, 0, 1, true), None);
}

#[test]
fn dynptr_classifiers_read_and_write() {
    let mut pass = false;
    let mut reports = Vec::new();
    ing_cls_dynptr_read(&META_WANT, &mut pass, &mut reports);
    assert!(pass);
    assert!(reports.is_empty());
    // a failed read leaves zeros, which are checked and reported
    let mut short = false;
    ing_cls_dynptr_read(&META_WANT[..31], &mut short, &mut reports);
    assert!(!short);
    assert_eq!(reports.len(), 1);
    // a failed slice is not checked
    let mut s = false;
    ing_cls_dynptr_slice(&META_WANT[..31], &mut s, &mut reports);
    assert!(!s);
    assert_eq!(reports.len(), 1);
    ing_cls_dynptr_slice(&META_WANT, &mut s, &mut reports);
    assert!(s);
    let mut rd = false;
    assert_eq!(ing_cls_dynptr_offset_rd(&META_WANT, &mut rd, &mut reports), 2);
    assert!(rd);
    assert_eq!(reports.len(), 1);
    let mut meta = vec![0u8; 32];
    assert_eq!(ing_cls_dynptr_write(&test_packet(), &mut meta), -1);
    assert_eq!(meta, META_WANT.to_vec());
    let mut meta2 = vec![0u8; 40];
    assert_eq!(ing_cls_dynptr_slice_rdwr(&test_packet(), &mut meta2), -1);
    assert_eq!(&meta2[..32], &META_WANT[..]);
    let mut small = vec![0u8; 8];
    assert_eq!(ing_cls_dynptr_slice_rdwr(&test_packet(), &mut small), 2);
    assert_eq!(small, vec![0u8; 8]);
}

#[test]
fn chunked_metadata_write() {
    let mut meta = vec![0u8; 32];
    assert_eq!(ing_cls_dynptr_offset_wr(&test_packet(), &mut meta), -1);
    assert_eq!(meta, META_WANT.to_vec());
    // 20 bytes of metadata: the first two chunks fit, then the slice fails.
    let mut part = vec![0xffu8; 20];
    assert_eq!(ing_cls_dynptr_offset_wr(&test_packet(), &mut part), 2);
    assert_eq!(&part[..16], &META_WANT[..16]);
    assert_eq!(&part[16..], &[0xff; 4]);
    // A packet too short to load from: zeros are written.
    let mut z = vec![0xffu8; 32];
    assert_eq!(ing_cls_dynptr_offset_wr(&[0u8; 20], &mut z), -1);
    assert_eq!(z, vec![0u8; 32]);
}

#[test]
fn out_of_range_accesses_refused() {
    let mut meta = META_WANT.to_vec();
    assert_eq!(ing_cls_dynptr_offset_oob(&mut meta, 0), -1);
    assert_eq!(meta, META_WANT.to_vec());
    let mut longer = vec![0u8; 33];
    assert_eq!(ing_cls_dynptr_offset_oob(&mut longer, 0), 2);
    assert_eq!(ing_cls_dynptr_offset_oob(&mut meta, -22), 2);
}

#[test]
fn clone_dynptr_checks() {
    let mut pass = false;
    let mut reports = Vec::new();
    clone_meta_dynptr_survives_data_slice_write(&test_packet(), &META_WANT, &mut pass, &mut reports);
    assert!(pass);
    let mut pass2 = false;
    clone_meta_dynptr_survives_meta_slice_write(&test_packet(), &META_WANT, &mut pass2, &mut reports);
    assert!(pass2);
    let mut p = test_packet();
    let mut pass3 = false;
    clone_meta_dynptr_rw_before_data_dynptr_write(&mut p, &META_WANT, &mut pass3, &mut reports);
    assert!(pass3);
    assert_eq!(p[12], b'x');
    let mut meta = META_WANT.to_vec();
    let mut pass4 = false;
    clone_meta_dynptr_rw_before_meta_dynptr_write(&test_packet(), &mut meta, &mut pass4, &mut reports);
    assert!(pass4);
    assert_eq!(meta, META_WANT.to_vec());
    assert!(reports.is_empty());
    // Not a test packet: nothing noted, nothing written, nothing reported.
    let mut q = vec![0u8; 60];
    let mut no = false;
    clone_meta_dynptr_rw_before_data_dynptr_write(&mut q, &[0u8; 32], &mut no, &mut reports);
    assert!(!no);
    assert_eq!(q, vec![0u8; 60]);
    assert!(reports.is_empty());
    // A test packet with the wrong metadata: one report, no write.
    let mut r = test_packet();
    clone_meta_dynptr_rw_before_data_dynptr_write(&mut r, &[0u8; 32], &mut no, &mut reports);
    assert!(!no);
    assert_eq!(r, test_packet());
    assert!(reports == vec![StreamReport::MetadataMismatch]);
}

#[test]
fn lwt_head_room() {
    assert_eq!(dummy_lwt_xmit(0), 0);
    assert_eq!(dummy_lwt_xmit(-12), 2);
}
