//! A socket-operations program that writes a test TCP header option on
//! SYN, SYN-ACK, FIN and (when asked to resend) data packets, reads it back
//! on the other side, and applies the delayed-ACK value it carries.
//!
//! The option is `kind, len, [magic,] flags, [max_delack_ms,] [rand]`: a
//! field is present when its flag bit is set.  Kernel helper calls are
//! returned as [`HdrAction`]s; their answers come in as [`HdrAnswers`].
use vstd::prelude::*;
use crate::ctx::{
    bpf_sock_ops, BPF_SOCK_OPS_ACTIVE_ESTABLISHED_CB, BPF_SOCK_OPS_HDR_OPT_LEN_CB,
    BPF_SOCK_OPS_PARSE_ALL_HDR_OPT_CB_FLAG, BPF_SOCK_OPS_PARSE_HDR_OPT_CB,
    BPF_SOCK_OPS_PARSE_UNKNOWN_HDR_OPT_CB_FLAG, BPF_SOCK_OPS_PASSIVE_ESTABLISHED_CB,
    BPF_SOCK_OPS_STATE_CB_FLAG, BPF_SOCK_OPS_TCP_CONNECT_CB, BPF_SOCK_OPS_TCP_LISTEN_CB,
    BPF_SOCK_OPS_WRITE_HDR_OPT_CB, BPF_SOCK_OPS_WRITE_HDR_OPT_CB_FLAG, TCP_BPF_DELACK_MAX, TCP_BPF_RTO_MIN,
    TCP_SAVE_SYN,
};

verus! {

pub const CG_OK: i32 = 1;
pub const CG_ERR: i32 = 0;
pub const TCPOPT_EXP: u8 = 254;
pub const TCP_BPF_EXPOPT_BASE_LEN: u8 = 4;
pub const OPTION_RESEND: u8 = 0;
pub const OPTION_MAX_DELACK_MS: u8 = 1;
pub const OPTION_RAND: u8 = 2;
pub const NR_OPTION_FLAGS: u8 = 3;
pub const OPTION_MASK: u8 = 7;
pub const TCPHDR_FIN: u32 = 0x01;
pub const TCPHDR_SYN: u32 = 0x02;
pub const TCPHDR_SYNACK: u32 = 0x12;
pub const BPF_WRITE_HDR_TCP_CURRENT_MSS: u32 = 1;
pub const BPF_WRITE_HDR_TCP_SYNACK_COOKIE: u32 = 2;
pub const BPF_LOAD_HDR_OPT_TCP_SYN: u64 = 1;
pub const TCPHDR_LEN: u64 = 20;

/// UAPI `struct bpf_test_option`.
#[derive(Clone, Copy, PartialEq, Eq, Structural)]
pub struct bpf_test_option {
    pub flags: u8,
    pub max_delack_ms: u8,
    pub rand: u8,
}

/// UAPI `struct hdr_stg`: what the program keeps per socket.
#[derive(Clone, Copy, PartialEq, Eq, Structural)]
pub struct hdr_stg {
    pub active: bool,
    pub resend_syn: bool,
    pub syncookie: bool,
    pub fastopen: bool,
}

/// UAPI `struct linum_err`: which check failed, and the error.
#[derive(Clone, Copy, PartialEq, Eq, Structural)]
pub struct linum_err {
    pub linum: u32,
    pub err: i32,
}

/// The program's globals: the option kind and magic to use, the callback
/// flags inherited by a passive socket, and the options to send and those
/// received.
#[derive(Clone, Copy, PartialEq, Eq, Structural)]
pub struct HdrOptGlobals {
    pub test_kind: u8,
    pub test_magic: u16,
    pub inherit_cb_flags: u32,
    pub passive_synack_out: bpf_test_option,
    pub passive_fin_out: bpf_test_option,
    pub passive_estab_in: bpf_test_option,
    pub passive_fin_in: bpf_test_option,
    pub active_syn_out: bpf_test_option,
    pub active_fin_out: bpf_test_option,
    pub active_estab_in: bpf_test_option,
    pub active_fin_in: bpf_test_option,
}

/// A kernel helper call of the program.
#[derive(Clone, Copy)]
pub enum HdrAction {
    /// `bpf_load_hdr_opt` with the first `len` bytes of `search`.
    LoadHdrOpt { search: [u8; 8], len: u32, flags: u64 },
    /// `bpf_store_hdr_opt` of the first `len` bytes of `opt`.
    StoreHdrOpt { opt: [u8; 8], len: u32 },
    /// `bpf_reserve_hdr_opt(len)`.
    ReserveHdrOpt { len: u32 },
    /// `bpf_sk_storage_get` of the socket's storage, created from `init`
    /// when `create` is set.
    SkStorageGet { init: hdr_stg, create: bool },
    /// `bpf_setsockopt(SOL_TCP, optname, &optval, 4)`.
    SetSockOpt { optname: i32, optval: u32 },
    /// Callback flags set to [`clear_hdr_cb_flags`] of the current flags.
    ClearHdrCbFlags,
    /// Callback flags set to [`set_hdr_cb_flags`] of the current flags.
    SetHdrCbFlags { extra: u32 },
    /// Callback flags set to [`clear_parse_all_hdr_cb_flags`] of the
    /// current flags.
    ClearParseAllHdrCbFlags,
    /// Callback flags set to [`set_parse_all_hdr_cb_flags`] of the current
    /// flags.
    SetParseAllHdrCbFlags,
    /// The error is recorded for the local port (if none is recorded yet).
    ReportError { lport: i32, le: linum_err },
}

/// What the kernel answers to the program's calls.
#[derive(Clone, Copy)]
pub struct HdrAnswers {
    /// Result of loading the option from the saved SYN, and the buffer.
    pub load_syn_ret: i64,
    pub load_syn_buf: [u8; 8],
    /// Result of loading the option from the current packet, and the buffer.
    pub load_pkt_ret: i64,
    pub load_pkt_buf: [u8; 8],
    /// Result of storing an option.
    pub store_ret: i64,
    /// Result of reserving option space.
    pub reserve_ret: i64,
    /// The socket's storage, if it has one.
    pub storage: Option<hdr_stg>,
    /// Whether a storage lookup that creates succeeds.
    pub storage_created: bool,
    /// Results of setting the delayed-ACK maximum and the RTO minimum.
    pub delack_ret: i64,
    pub rto_ret: i64,
    /// The TCP header of the current packet.
    pub tcp_header: [u8; 20],
}

// The checks that can fail, each identified by the line number that the
// program reports for it.
pub const ERR_STORE: u32 = 373;
pub const ERR_SYNACK_LOAD: u32 = 457;
pub const ERR_SYNACK_RESERVE: u32 = 464;
pub const ERR_SYNACK_EMPTY: u32 = 477;
pub const ERR_SYN_RESERVE: u32 = 499;
pub const ERR_SYN_EMPTY: u32 = 510;
pub const ERR_FIN_NO_STG: u32 = 540;
pub const ERR_FIN_RESERVE: u32 = 547;
pub const ERR_WRITE_FIN_NO_STG: u32 = 558;
pub const ERR_WRITE_FIN_EMPTY: u32 = 562;
pub const ERR_NODATA_NO_STG: u32 = 588;
pub const ERR_WRITE_NODATA_NO_STG: u32 = 602;
pub const ERR_MSS_RESERVE: u32 = 629;
pub const ERR_WRITE_SHORT_HDR: u32 = 682;
pub const ERR_ACTIVE_LOAD: u32 = 732;
pub const ERR_ACTIVE_STG: u32 = 747;
pub const ERR_ACTIVE_DELACK: u32 = 770;
pub const ERR_ACTIVE_RTO: u32 = 778;
pub const ERR_PASSIVE_LOAD: u32 = 803;
pub const ERR_PASSIVE_SHORT_HDR: u32 = 809;
pub const ERR_PASSIVE_STG: u32 = 841;
pub const ERR_PASSIVE_DELACK: u32 = 848;
pub const ERR_PASSIVE_RTO: u32 = 856;
pub const ERR_PARSE_NO_SK: u32 = 867;
pub const ERR_PARSE_SHORT_HDR: u32 = 873;
pub const ERR_PARSE_NO_STG: u32 = 878;
pub const ERR_PARSE_LOAD: u32 = 922;

// ---------------------------------------------------------------------
// The option itself
// ---------------------------------------------------------------------

pub open spec fn spec_test_option_flags(flags: u8, option: u8) -> bool {
    (1u8 & (flags >> option)) != 0
}

/// Whether flag bit `option` is set in `flags`.
pub fn test_option_flags(flags: u8, option: u8) -> (r: bool)
    requires
        option < 8,
    ensures
        r == spec_test_option_flags(flags, option),
{
    (1 & (flags >> option)) != 0
}

/// `flags` with bit `option` set.
pub fn set_option_flags(flags: u8, option: u8) -> (r: u8)
    requires
        option < 8,
    ensures
        r == flags | (1u8 << option),
{
    flags | (1u8 << option)
}

/// Number of data bytes of an option with `flags`: the flags byte and the
/// present fields (the resend bit takes no byte).
pub open spec fn option_data_len(flags: u8) -> int {
    1 + (if spec_test_option_flags(flags, OPTION_MAX_DELACK_MS) { 1int } else { 0int }) + (if spec_test_option_flags(
        flags,
        OPTION_RAND,
    ) { 1int } else { 0int })
}

/// Total length of the option: 0 when there is nothing to send, else the
/// header (kind, length, and the magic for the experimental kind) and data.
pub open spec fn spec_option_total_len(flags: u8, kind: u8) -> u8 {
    if flags == 0 {
        0
    } else if kind == TCPOPT_EXP {
        (option_data_len(flags) + 4) as u8
    } else {
        (option_data_len(flags) + 2) as u8
    }
}

/// Length of the option the program writes for `flags`.
pub fn option_total_len(flags: u8, test_kind: u8) -> (r: u8)
    ensures
        r == spec_option_total_len(flags, test_kind),
{
    if flags == 0 {
        return 0;
    }
    let mut len: u8 = 1;
    let mut i: u8 = OPTION_RESEND + 1;
    while i < NR_OPTION_FLAGS
        invariant
            1 <= i <= NR_OPTION_FLAGS,
            len == 1 + (if i > 1 && spec_test_option_flags(flags, 1) { 1int } else { 0int }) + (if i > 2
                && spec_test_option_flags(flags, 2) { 1int } else { 0int }),
        decreases NR_OPTION_FLAGS - i,
    {
        if test_option_flags(flags, i) {
            len = len + 1;
        }
        i += 1;
    }
    if test_kind == TCPOPT_EXP {
        len + TCP_BPF_EXPOPT_BASE_LEN
    } else {
        len + 2
    }
}

/// `d` with the option's data written from its start: the flags, then each
/// present field.
pub open spec fn spec_write_option(o: bpf_test_option, d: Seq<u8>) -> Seq<u8> {
    let d1 = d.update(0, o.flags);
    let (d2, off) = if spec_test_option_flags(o.flags, OPTION_MAX_DELACK_MS) {
        (d1.update(1, o.max_delack_ms), 2int)
    } else {
        (d1, 1int)
    };
    if spec_test_option_flags(o.flags, OPTION_RAND) {
        d2.update(off, o.rand)
    } else {
        d2
    }
}

/// `o` with what the data `s` holds: the flags, and each field whose flag
/// is set; the other fields are kept.
pub open spec fn spec_parse_option(o: bpf_test_option, s: Seq<u8>) -> bpf_test_option {
    let f = s[0];
    let o1 = bpf_test_option { flags: f, ..o };
    let (o2, off) = if spec_test_option_flags(f, OPTION_MAX_DELACK_MS) {
        (bpf_test_option { max_delack_ms: s[1], ..o1 }, 2int)
    } else {
        (o1, 1int)
    };
    if spec_test_option_flags(f, OPTION_RAND) {
        bpf_test_option { rand: s[off], ..o2 }
    } else {
        o2
    }
}

/// Writes the option's data into `data`.
pub fn write_test_option(test_opt: &bpf_test_option, data: &mut [u8; 4])
    ensures
        final(data)@ == spec_write_option(*test_opt, old(data)@),
{
    let mut offset: usize = 0;
    let flags = test_opt.flags;
    data[offset] = flags;
    offset += 1;
    if test_option_flags(flags, OPTION_MAX_DELACK_MS) {
        data[offset] = test_opt.max_delack_ms;
        offset += 1;
    }
    if test_option_flags(flags, OPTION_RAND) {
        data[offset] = test_opt.rand;
    }
    assert(data@ =~= spec_write_option(*test_opt, old(data)@));
}

/// Reads the option's data from `start` into `opt`; returns 0.
pub fn parse_test_option(opt: &mut bpf_test_option, start: &[u8]) -> (r: i32)
    requires
        start@.len() >= 3,
    ensures
        r == 0,
        *final(opt) == spec_parse_option(*old(opt), start@),
{
    let mut offset: usize = 0;
    let flags = start[offset];
    opt.flags = flags;
    offset += 1;
    if test_option_flags(flags, OPTION_MAX_DELACK_MS) {
        opt.max_delack_ms = start[offset];
        offset += 1;
    }
    if test_option_flags(flags, OPTION_RAND) {
        opt.rand = start[offset];
    }
    0
}

/// The option bytes the program stores, and how many.
pub open spec fn store_bytes(o: bpf_test_option, g: HdrOptGlobals) -> ([u8; 8], u32) {
    let d = spec_write_option(o, seq![0u8, 0u8, 0u8, 0u8]);
    let l = spec_option_total_len(o.flags, g.test_kind);
    if g.test_kind == TCPOPT_EXP {
        ([TCPOPT_EXP, l, (g.test_magic / 256) as u8, (g.test_magic % 256) as u8, d[0], d[1], d[2], d[3]], 8)
    } else {
        ([g.test_kind, l, d[0], d[1], d[2], d[3], 0u8, 0u8], 6)
    }
}

/// The search buffer of an option load, and its length.
pub open spec fn load_search(g: HdrOptGlobals) -> ([u8; 8], u32) {
    if g.test_kind == TCPOPT_EXP {
        ([TCPOPT_EXP, 4u8, (g.test_magic / 256) as u8, (g.test_magic % 256) as u8, 0u8, 0u8, 0u8, 0u8], 8)
    } else {
        ([g.test_kind, 0u8, 0u8, 0u8, 0u8, 0u8, 0u8, 0u8], 6)
    }
}

/// Where the option's data lies in a loaded buffer.
pub open spec fn loaded_data(g: HdrOptGlobals, buf: [u8; 8]) -> Seq<u8> {
    if g.test_kind == TCPOPT_EXP { buf@.subrange(4, 8) } else { buf@.subrange(2, 6) }
}

/// The bytes of the option written for `o`.
pub fn option_bytes(o: &bpf_test_option, g: &HdrOptGlobals) -> (r: ([u8; 8], u32))
    ensures
        r == store_bytes(*o, *g),
{
    let mut data: [u8; 4] = [0, 0, 0, 0];
    write_test_option(o, &mut data);
    let l = option_total_len(o.flags, g.test_kind);
    let r = if g.test_kind == TCPOPT_EXP {
        let hi = (g.test_magic / 256) as u8;
        let lo = (g.test_magic % 256) as u8;
        ([TCPOPT_EXP, l, hi, lo, data[0], data[1], data[2], data[3]], 8u32)
    } else {
        ([g.test_kind, l, data[0], data[1], data[2], data[3], 0u8, 0u8], 6u32)
    };
    assert(data@ == spec_write_option(*o, seq![0u8, 0u8, 0u8, 0u8])) by {
        assert([0u8, 0u8, 0u8, 0u8]@ =~= seq![0u8, 0u8, 0u8, 0u8]);
    }
    assert(r.0 =~= store_bytes(*o, *g).0);
    r
}

/// The search buffer of an option load.
pub fn search_bytes(g: &HdrOptGlobals) -> (r: ([u8; 8], u32))
    ensures
        r == load_search(*g),
{
    if g.test_kind == TCPOPT_EXP {
        let hi = (g.test_magic / 256) as u8;
        let lo = (g.test_magic % 256) as u8;
        ([TCPOPT_EXP, 4, hi, lo, 0, 0, 0, 0], 8)
    } else {
        ([g.test_kind, 0, 0, 0, 0, 0, 0, 0], 6)
    }
}

// ---------------------------------------------------------------------
// Callback flags
// ---------------------------------------------------------------------

/// The callback flags without the header-option callbacks.
pub fn clear_hdr_cb_flags(cur: u32) -> (r: i32)
    ensures
        r == (cur & !(BPF_SOCK_OPS_PARSE_UNKNOWN_HDR_OPT_CB_FLAG | BPF_SOCK_OPS_WRITE_HDR_OPT_CB_FLAG)) as i32,
{
    (cur & !(BPF_SOCK_OPS_PARSE_UNKNOWN_HDR_OPT_CB_FLAG | BPF_SOCK_OPS_WRITE_HDR_OPT_CB_FLAG)) as i32
}

/// The callback flags with the header-option callbacks and `extra`.
pub fn set_hdr_cb_flags(cur: u32, extra: u32) -> (r: i32)
    ensures
        r == (cur | BPF_SOCK_OPS_PARSE_UNKNOWN_HDR_OPT_CB_FLAG | BPF_SOCK_OPS_WRITE_HDR_OPT_CB_FLAG | extra) as i32,
{
    (cur | BPF_SOCK_OPS_PARSE_UNKNOWN_HDR_OPT_CB_FLAG | BPF_SOCK_OPS_WRITE_HDR_OPT_CB_FLAG | extra) as i32
}

/// The callback flags without the parse-all-options callback.
pub fn clear_parse_all_hdr_cb_flags(cur: u32) -> (r: i32)
    ensures
        r == (cur & !BPF_SOCK_OPS_PARSE_ALL_HDR_OPT_CB_FLAG) as i32,
{
    (cur & !BPF_SOCK_OPS_PARSE_ALL_HDR_OPT_CB_FLAG) as i32
}

/// The callback flags with the parse-all-options callback.
pub fn set_parse_all_hdr_cb_flags(cur: u32) -> (r: i32)
    ensures
        r == (cur | BPF_SOCK_OPS_PARSE_ALL_HDR_OPT_CB_FLAG) as i32,
{
    (cur | BPF_SOCK_OPS_PARSE_ALL_HDR_OPT_CB_FLAG) as i32
}

// ---------------------------------------------------------------------
// Laws of the option
// ---------------------------------------------------------------------

/// Option round trip: reading the data the program writes for an option
/// gives back its flags and every field whose flag is set.
pub proof fn lemma_option_roundtrip(o: bpf_test_option, d: Seq<u8>, prev: bpf_test_option)
    requires
        d.len() >= 3,
    ensures
        ({
            let p = spec_parse_option(prev, spec_write_option(o, d));
            &&& p.flags == o.flags
            &&& spec_test_option_flags(o.flags, OPTION_MAX_DELACK_MS) ==> p.max_delack_ms == o.max_delack_ms
            &&& spec_test_option_flags(o.flags, OPTION_RAND) ==> p.rand == o.rand
        }),
{
}

/// The length field the program writes is the length of what it means:
/// the header and the flags byte and present fields.
pub proof fn lemma_option_len_matches(o: bpf_test_option, g: HdrOptGlobals)
    requires
        o.flags != 0,
    ensures
        store_bytes(o, g).0[1] == (if g.test_kind == TCPOPT_EXP { 4int } else { 2int }) + option_data_len(o.flags),
        option_data_len(o.flags) <= 3,
{
}

// ---------------------------------------------------------------------
// Handlers: specifications
// ---------------------------------------------------------------------

pub open spec fn zero_option() -> bpf_test_option {
    bpf_test_option { flags: 0, max_delack_ms: 0, rand: 0 }
}

pub open spec fn zero_stg() -> hdr_stg {
    hdr_stg { active: false, resend_syn: false, syncookie: false, fastopen: false }
}

/// The error path: the error is recorded and all header-option callbacks
/// are switched off.
pub open spec fn cg_err(s: bpf_sock_ops, err: i32, site: u32) -> Seq<HdrAction> {
    seq![
        HdrAction::ReportError { lport: s.local_port as i32, le: linum_err { linum: site, err } },
        HdrAction::ClearHdrCbFlags,
        HdrAction::ClearParseAllHdrCbFlags,
    ]
}

pub open spec fn spec_store_option(s: bpf_sock_ops, o: bpf_test_option, g: HdrOptGlobals, k: HdrAnswers) -> (i32, Seq<HdrAction>) {
    let (b, n) = store_bytes(o, g);
    let a = seq![HdrAction::StoreHdrOpt { opt: b, len: n }];
    if k.store_ret != 0 {
        (CG_ERR, a + cg_err(s, k.store_ret as i32, ERR_STORE))
    } else {
        (CG_OK, a)
    }
}

/// The answer to a load from the saved SYN or from the current packet.
pub open spec fn load_answer(k: HdrAnswers, from_syn: bool) -> (i64, [u8; 8]) {
    if from_syn { (k.load_syn_ret, k.load_syn_buf) } else { (k.load_pkt_ret, k.load_pkt_buf) }
}

/// A load of the option into `o`: the error (0 on success), the option,
/// and the call.
pub open spec fn spec_load_option(o: bpf_test_option, from_syn: bool, g: HdrOptGlobals, k: HdrAnswers) -> (i64, bpf_test_option, HdrAction) {
    let (b, n) = load_search(g);
    let act = HdrAction::LoadHdrOpt { search: b, len: n, flags: if from_syn { BPF_LOAD_HDR_OPT_TCP_SYN } else { 0 } };
    let (ret, buf) = load_answer(k, from_syn);
    if ret < 0 {
        (ret, o, act)
    } else {
        (0, spec_parse_option(o, loaded_data(g, buf)), act)
    }
}

/// Space for an option of `len` bytes (none asked for if it is empty).
pub open spec fn spec_reserve(s: bpf_sock_ops, len: u8, k: HdrAnswers, site: u32) -> (i32, Seq<HdrAction>) {
    if len == 0 {
        (CG_OK, seq![])
    } else {
        let a = seq![HdrAction::ReserveHdrOpt { len: len as u32 }];
        if k.reserve_ret != 0 {
            (CG_ERR, a + cg_err(s, k.reserve_ret as i32, site))
        } else {
            (CG_OK, a)
        }
    }
}

/// Whether a load error is one the program gives up on (anything but "no
/// such option").
pub open spec fn load_failed(err: i64) -> bool {
    err != 0 && err != -42
}

pub open spec fn spec_synack_opt_len(s: bpf_sock_ops, g: HdrOptGlobals, k: HdrAnswers) -> (i32, Seq<HdrAction>) {
    if g.passive_synack_out.flags == 0 {
        (CG_OK, seq![])
    } else {
        let (err, _o, la) = spec_load_option(zero_option(), true, g, k);
        if err == -42 {
            (CG_OK, seq![la])
        } else if err != 0 {
            (CG_ERR, seq![la] + cg_err(s, err as i32, ERR_SYNACK_LOAD))
        } else {
            let (r, a) = spec_reserve(s, spec_option_total_len(g.passive_synack_out.flags, g.test_kind), k, ERR_SYNACK_RESERVE);
            (r, seq![la] + a)
        }
    }
}

pub open spec fn spec_write_synack_opt(s: bpf_sock_ops, g: HdrOptGlobals, k: HdrAnswers) -> (i32, Seq<HdrAction>) {
    if g.passive_synack_out.flags == 0 {
        (CG_ERR, cg_err(s, 0, ERR_SYNACK_EMPTY))
    } else {
        let o = g.passive_synack_out;
        let o1 = if s.args[0] == BPF_WRITE_HDR_TCP_SYNACK_COOKIE { bpf_test_option { flags: o.flags | 1u8, ..o } } else { o };
        spec_store_option(s, o1, g, k)
    }
}

pub open spec fn spec_syn_opt_len(s: bpf_sock_ops, g: HdrOptGlobals, k: HdrAnswers) -> (i32, Seq<HdrAction>) {
    if g.active_syn_out.flags == 0 {
        (CG_OK, seq![])
    } else {
        spec_reserve(s, spec_option_total_len(g.active_syn_out.flags, g.test_kind), k, ERR_SYN_RESERVE)
    }
}

pub open spec fn spec_write_syn_opt(s: bpf_sock_ops, g: HdrOptGlobals, k: HdrAnswers) -> (i32, Seq<HdrAction>) {
    if g.active_syn_out.flags == 0 {
        (CG_ERR, cg_err(s, 0, ERR_SYN_EMPTY))
    } else {
        spec_store_option(s, g.active_syn_out, g, k)
    }
}

/// A lookup of the socket's storage (none without a socket).
pub open spec fn stg_lookup(s: bpf_sock_ops, k: HdrAnswers) -> (Option<hdr_stg>, Seq<HdrAction>) {
    if s.sk == 0 {
        (None, seq![])
    } else {
        (k.storage, seq![HdrAction::SkStorageGet { init: zero_stg(), create: false }])
    }
}

/// The FIN option of the socket's side.
pub open spec fn spec_fin_opt(s: bpf_sock_ops, g: HdrOptGlobals, k: HdrAnswers) -> (Option<bpf_test_option>, Seq<HdrAction>) {
    let (st, a) = stg_lookup(s, k);
    match st {
        None => (None, a),
        Some(st) => (Some(if st.active { g.active_fin_out } else { g.passive_fin_out }), a),
    }
}

pub open spec fn spec_fin_opt_len(s: bpf_sock_ops, g: HdrOptGlobals, k: HdrAnswers) -> (i32, Seq<HdrAction>) {
    let (o, a) = spec_fin_opt(s, g, k);
    match o {
        None => (CG_ERR, a + cg_err(s, 0, ERR_FIN_NO_STG)),
        Some(o) => {
            let (r, a2) = spec_reserve(s, spec_option_total_len(o.flags, g.test_kind), k, ERR_FIN_RESERVE);
            (r, a + a2)
        },
    }
}

pub open spec fn spec_write_fin_opt(s: bpf_sock_ops, g: HdrOptGlobals, k: HdrAnswers) -> (i32, Seq<HdrAction>) {
    let (o, a) = spec_fin_opt(s, g, k);
    match o {
        None => (CG_ERR, a + cg_err(s, 0, ERR_WRITE_FIN_NO_STG)),
        Some(o) => if o.flags == 0 {
            (CG_ERR, a + cg_err(s, 0, ERR_WRITE_FIN_EMPTY))
        } else {
            let (r, a2) = spec_store_option(s, o, g, k);
            (r, a + a2)
        },
    }
}

/// Whether the SYN option is to be resent in ACKs: -1 without storage.
pub open spec fn spec_resend_in_ack(s: bpf_sock_ops, k: HdrAnswers) -> (i32, Seq<HdrAction>) {
    let (st, a) = stg_lookup(s, k);
    match st {
        None => (-1i32, a),
        Some(st) => (if st.resend_syn { 1i32 } else { 0i32 }, a),
    }
}

pub open spec fn spec_nodata_opt_len(s: bpf_sock_ops, g: HdrOptGlobals, k: HdrAnswers) -> (i32, Seq<HdrAction>) {
    let (resend, a) = spec_resend_in_ack(s, k);
    if resend < 0 {
        (CG_ERR, a + cg_err(s, 0, ERR_NODATA_NO_STG))
    } else if resend != 0 {
        let (r, a2) = spec_syn_opt_len(s, g, k);
        (r, a + a2)
    } else {
        (CG_OK, a)
    }
}

pub open spec fn spec_write_nodata_opt(s: bpf_sock_ops, g: HdrOptGlobals, k: HdrAnswers) -> (i32, Seq<HdrAction>) {
    let (resend, a) = spec_resend_in_ack(s, k);
    if resend < 0 {
        (CG_ERR, a + cg_err(s, 0, ERR_WRITE_NODATA_NO_STG))
    } else if resend != 0 {
        let (r, a2) = spec_write_syn_opt(s, g, k);
        (r, a + a2)
    } else {
        (CG_OK, a)
    }
}

/// The TCP flags of the current packet.
pub open spec fn tcp_flags_of(s: bpf_sock_ops) -> u32 {
    (s.skb_tcp_flags as u8) as u32
}

/// Whether the TCP header of the current packet lies outside the packet.
pub open spec fn short_tcp_header(s: bpf_sock_ops) -> bool {
    s.skb_data + TCPHDR_LEN > s.skb_data_end
}

pub open spec fn spec_handle_hdr_opt_len(s: bpf_sock_ops, g: HdrOptGlobals, k: HdrAnswers) -> (i32, Seq<HdrAction>) {
    let f = tcp_flags_of(s);
    if f & TCPHDR_SYNACK == TCPHDR_SYNACK {
        spec_synack_opt_len(s, g, k)
    } else if f & TCPHDR_SYN != 0 {
        spec_syn_opt_len(s, g, k)
    } else if f & TCPHDR_FIN != 0 {
        spec_fin_opt_len(s, g, k)
    } else if s.args[0] == BPF_WRITE_HDR_TCP_CURRENT_MSS {
        spec_reserve(s, spec_option_total_len(OPTION_MASK, g.test_kind), k, ERR_MSS_RESERVE)
    } else {
        spec_nodata_opt_len(s, g, k)
    }
}

pub open spec fn spec_handle_write_hdr_opt(s: bpf_sock_ops, g: HdrOptGlobals, k: HdrAnswers) -> (i32, Seq<HdrAction>) {
    let f = tcp_flags_of(s);
    if f & TCPHDR_SYNACK == TCPHDR_SYNACK {
        spec_write_synack_opt(s, g, k)
    } else if f & TCPHDR_SYN != 0 {
        spec_write_syn_opt(s, g, k)
    } else if f & TCPHDR_FIN != 0 {
        spec_write_fin_opt(s, g, k)
    } else if short_tcp_header(s) {
        (CG_ERR, cg_err(s, 0, ERR_WRITE_SHORT_HDR))
    } else {
        spec_write_nodata_opt(s, g, k)
    }
}

/// Applying the delayed-ACK maximum (ours) and the RTO minimum (from the
/// peer's delayed-ACK maximum), each where it is not 0.
pub open spec fn spec_delack_rto(s: bpf_sock_ops, k: HdrAnswers, ms: u8, peer_ms: u8, site1: u32, site2: u32) -> (i32, Seq<HdrAction>) {
    let a1 = if ms != 0 { seq![HdrAction::SetSockOpt { optname: TCP_BPF_DELACK_MAX, optval: (ms as u32 * 1000) as u32 }] } else { seq![] };
    if ms != 0 && k.delack_ret != 0 {
        (CG_ERR, a1 + cg_err(s, k.delack_ret as i32, site1))
    } else {
        let a2 = if peer_ms != 0 { seq![HdrAction::SetSockOpt { optname: TCP_BPF_RTO_MIN, optval: (peer_ms as u32 * 1000) as u32 }] } else { seq![] };
        if peer_ms != 0 && k.rto_ret != 0 {
            (CG_ERR, a1 + a2 + cg_err(s, k.rto_ret as i32, site2))
        } else {
            (CG_OK, a1 + a2)
        }
    }
}

pub open spec fn stg_create(s: bpf_sock_ops, st: hdr_stg) -> Seq<HdrAction> {
    if s.sk == 0 { seq![] } else { seq![HdrAction::SkStorageGet { init: st, create: true }] }
}

pub open spec fn spec_handle_active_estab(s: bpf_sock_ops, g: HdrOptGlobals, k: HdrAnswers) -> (i32, Seq<HdrAction>, HdrOptGlobals) {
    let (err, o_in, la) = spec_load_option(g.active_estab_in, false, g, k);
    let g1 = HdrOptGlobals { active_estab_in: o_in, ..g };
    if load_failed(err) {
        (CG_ERR, seq![la] + cg_err(s, err as i32, ERR_ACTIVE_LOAD), g1)
    } else {
        let st = hdr_stg { active: true, resend_syn: spec_test_option_flags(o_in.flags, OPTION_RESEND), syncookie: false, fastopen: false };
        let pre = seq![la] + stg_create(s, st);
        if s.sk == 0 || !k.storage_created {
            (CG_ERR, pre + cg_err(s, 0, ERR_ACTIVE_STG), g1)
        } else {
            let fa = if st.resend_syn {
                seq![HdrAction::SetParseAllHdrCbFlags]
            } else if g1.active_fin_out.flags == 0 {
                seq![HdrAction::ClearHdrCbFlags]
            } else {
                seq![]
            };
            let (r, a) = spec_delack_rto(s, k, g1.active_syn_out.max_delack_ms, o_in.max_delack_ms, ERR_ACTIVE_DELACK, ERR_ACTIVE_RTO);
            (r, pre + fa + a, g1)
        }
    }
}

pub open spec fn spec_handle_passive_estab(s: bpf_sock_ops, g: HdrOptGlobals, k: HdrAnswers) -> (i32, Seq<HdrAction>, HdrOptGlobals) {
    let g0 = HdrOptGlobals { inherit_cb_flags: s.bpf_sock_ops_cb_flags, ..g };
    let (err1, o1, la1) = spec_load_option(g0.passive_estab_in, true, g0, k);
    let (err, o_in, las, syncookie) = if err1 == -2 {
        let (e2, o2, la2) = spec_load_option(o1, false, g0, k);
        (e2, o2, seq![la1, la2], true)
    } else {
        (err1, o1, seq![la1], false)
    };
    let g1 = HdrOptGlobals { passive_estab_in: o_in, ..g0 };
    if load_failed(err) {
        (CG_ERR, las + cg_err(s, err as i32, ERR_PASSIVE_LOAD), g1)
    } else if short_tcp_header(s) {
        (CG_ERR, las + cg_err(s, 0, ERR_PASSIVE_SHORT_HDR), g1)
    } else {
        let syn = (k.tcp_header[13] >> 1u8) & 1u8 != 0;
        let fa = if syn {
            seq![HdrAction::SetParseAllHdrCbFlags]
        } else if g1.passive_fin_out.flags == 0 {
            seq![HdrAction::ClearHdrCbFlags]
        } else {
            seq![]
        };
        let st = hdr_stg { active: false, resend_syn: false, syncookie, fastopen: syn };
        let pre = las + fa + stg_create(s, st);
        if s.sk == 0 || !k.storage_created {
            (CG_ERR, pre + cg_err(s, 0, ERR_PASSIVE_STG), g1)
        } else {
            let (r, a) = spec_delack_rto(s, k, g1.passive_synack_out.max_delack_ms, o_in.max_delack_ms, ERR_PASSIVE_DELACK, ERR_PASSIVE_RTO);
            (r, pre + a, g1)
        }
    }
}

/// No action of `a` asks for the socket storage.
pub open spec fn no_storage_get(a: Seq<HdrAction>) -> bool {
    forall|i: int| 0 <= i < a.len() ==> !(#[trigger] a[i] is SkStorageGet)
}

/// No action of `a` switches the parse-all-headers callback on.
pub open spec fn no_parse_all(a: Seq<HdrAction>) -> bool {
    forall|i: int| 0 <= i < a.len() ==> !(#[trigger] a[i] is SetParseAllHdrCbFlags)
}

proof fn lemma_no_actions_concat(a: Seq<HdrAction>, b: Seq<HdrAction>)
    ensures
        no_storage_get(a) && no_storage_get(b) ==> no_storage_get(a + b),
        no_parse_all(a) && no_parse_all(b) ==> no_parse_all(a + b),
{
    assert forall|i: int| no_storage_get(a) && no_storage_get(b) && 0 <= i < (a + b).len() implies !(#[trigger] (a
        + b)[i] is SkStorageGet) by {
        if i >= a.len() {
            assert((a + b)[i] == b[i - a.len()]);
        }
    }
    assert forall|i: int| no_parse_all(a) && no_parse_all(b) && 0 <= i < (a + b).len() implies !(#[trigger] (a
        + b)[i] is SetParseAllHdrCbFlags) by {
        if i >= a.len() {
            assert((a + b)[i] == b[i - a.len()]);
        }
    }
}

proof fn lemma_error_tail_actions(s: bpf_sock_ops, k: HdrAnswers, ms: u8, peer_ms: u8, site: u32, site1: u32, site2: u32, err: i32)
    ensures
        no_storage_get(cg_err(s, err, site)),
        no_parse_all(cg_err(s, err, site)),
        no_storage_get(spec_delack_rto(s, k, ms, peer_ms, site1, site2).1),
        no_parse_all(spec_delack_rto(s, k, ms, peer_ms, site1, site2).1),
{
    let c1 = cg_err(s, k.delack_ret as i32, site1);
    let c2 = cg_err(s, k.rto_ret as i32, site2);
    let a1 = if ms != 0 { seq![HdrAction::SetSockOpt { optname: TCP_BPF_DELACK_MAX, optval: (ms as u32 * 1000) as u32 }] } else { seq![] };
    let a2 = if peer_ms != 0 { seq![HdrAction::SetSockOpt { optname: TCP_BPF_RTO_MIN, optval: (peer_ms as u32 * 1000) as u32 }] } else { seq![] };
    assert(no_storage_get(a1) && no_parse_all(a1));
    assert(no_storage_get(a2) && no_parse_all(a2));
    assert(no_storage_get(c1) && no_parse_all(c1));
    assert(no_storage_get(c2) && no_parse_all(c2));
    assert(no_storage_get(cg_err(s, err, site)) && no_parse_all(cg_err(s, err, site)));
    lemma_no_actions_concat(a1, c1);
    lemma_no_actions_concat(a1, a2);
    lemma_no_actions_concat(a1 + a2, c2);
}

/// Fast-open law of the passive side: the storage the established
/// callback creates records the connection as fast open exactly when the
/// received TCP header has its SYN bit (bit 1 of byte 13) set, that is,
/// when data came with the SYN.  Just before the storage is asked for, a
/// fast-open connection switches the parse-all-headers callback on; an
/// ordinary one with no FIN option to write switches the header-option
/// callbacks off.  An ordinary connection never switches the
/// parse-all-headers callback on, and the callback succeeds only once the
/// storage has been asked for.
pub proof fn lemma_passive_estab_fastopen(s: bpf_sock_ops, g: HdrOptGlobals, k: HdrAnswers)
    ensures
        ({
            let (r, a, g1) = spec_handle_passive_estab(s, g, k);
            let syn = k.tcp_header[13] & 2 != 0;
            &&& forall|i: int| 0 <= i < a.len() && #[trigger] a[i] is SkStorageGet ==> ({
                &&& a[i]->init.fastopen == syn
                &&& !a[i]->init.active
                &&& 1 <= i
                &&& syn ==> a[i - 1] is SetParseAllHdrCbFlags
                &&& (!syn && g.passive_fin_out.flags == 0) ==> a[i - 1] is ClearHdrCbFlags
            })
            &&& !syn ==> no_parse_all(a)
            &&& r == CG_OK ==> !no_storage_get(a)
        }),
{
    let (r, a, g1) = spec_handle_passive_estab(s, g, k);
    let b = k.tcp_header[13];
    assert(((b >> 1u8) & 1u8 != 0) == (b & 2u8 != 0)) by (bit_vector);
    let syn = b & 2 != 0;
    let g0 = HdrOptGlobals { inherit_cb_flags: s.bpf_sock_ops_cb_flags, ..g };
    let (err1, o1, la1) = spec_load_option(g0.passive_estab_in, true, g0, k);
    let (err, o_in, las, syncookie) = if err1 == -2 {
        let (e2, o2, la2) = spec_load_option(o1, false, g0, k);
        (e2, o2, seq![la1, la2], true)
    } else {
        (err1, o1, seq![la1], false)
    };
    let g1b = HdrOptGlobals { passive_estab_in: o_in, ..g0 };
    assert(la1 is LoadHdrOpt);
    assert(no_storage_get(las) && no_parse_all(las));
    assert(las.len() >= 1);
    lemma_error_tail_actions(s, k, g1b.passive_synack_out.max_delack_ms, o_in.max_delack_ms, ERR_PASSIVE_LOAD,
        ERR_PASSIVE_DELACK, ERR_PASSIVE_RTO, err as i32);
    lemma_error_tail_actions(s, k, 0, 0, ERR_PASSIVE_SHORT_HDR, 0, 0, 0);
    lemma_error_tail_actions(s, k, 0, 0, ERR_PASSIVE_STG, 0, 0, 0);
    if load_failed(err) {
        lemma_no_actions_concat(las, cg_err(s, err as i32, ERR_PASSIVE_LOAD));
    } else if short_tcp_header(s) {
        lemma_no_actions_concat(las, cg_err(s, 0, ERR_PASSIVE_SHORT_HDR));
    } else {
        let fa = if syn {
            seq![HdrAction::SetParseAllHdrCbFlags]
        } else if g1b.passive_fin_out.flags == 0 {
            seq![HdrAction::ClearHdrCbFlags]
        } else {
            seq![]
        };
        let st = hdr_stg { active: false, resend_syn: false, syncookie, fastopen: syn };
        let stg = stg_create(s, st);
        let pre = las + fa + stg;
        let tail = if s.sk == 0 || !k.storage_created {
            cg_err(s, 0, ERR_PASSIVE_STG)
        } else {
            spec_delack_rto(s, k, g1b.passive_synack_out.max_delack_ms, o_in.max_delack_ms, ERR_PASSIVE_DELACK, ERR_PASSIVE_RTO).1
        };
        assert(a == pre + tail);
        assert(no_storage_get(tail) && no_parse_all(tail));
        assert(no_storage_get(fa));
        if !syn {
            assert(no_parse_all(fa));
            assert(no_parse_all(stg));
            lemma_no_actions_concat(las, fa);
            lemma_no_actions_concat(las + fa, stg);
            lemma_no_actions_concat(pre, tail);
        }
        let n: int = (las + fa).len() as int;
        assert forall|i: int| 0 <= i < a.len() && #[trigger] a[i] is SkStorageGet implies ({
            &&& a[i]->init.fastopen == syn
            &&& !a[i]->init.active
            &&& 1 <= i
            &&& syn ==> a[i - 1] is SetParseAllHdrCbFlags
            &&& (!syn && g.passive_fin_out.flags == 0) ==> a[i - 1] is ClearHdrCbFlags
        }) by {
            if i < las.len() {
                assert(a[i] == las[i]);
            } else if i < n {
                assert(a[i] == fa[i - las.len()]);
            } else if i < pre.len() {
                assert(a[i] == stg[i - n]);
                assert(i == n);
                assert(a[i - 1] == (las + fa)[n - 1]);
                if fa.len() == 1 {
                    assert((las + fa)[n - 1] == fa[0]);
                }
            } else {
                assert(a[i] == tail[i - pre.len()]);
            }
        }
        if s.sk != 0 && k.storage_created {
            assert(a[n] == stg[0]);
            assert(a[n] is SkStorageGet);
        }
    }
}

/// Storage law of the active side: the storage the established callback
/// creates marks the connection as active, neither fast open nor from a
/// SYN cookie, and as resending its SYN exactly when the option received
/// from the peer asks for it; the request comes right after the option is
/// loaded, and the callback succeeds only once it has been made.
pub proof fn lemma_active_estab_storage(s: bpf_sock_ops, g: HdrOptGlobals, k: HdrAnswers)
    ensures
        ({
            let (r, a, g1) = spec_handle_active_estab(s, g, k);
            &&& forall|i: int| 0 <= i < a.len() && #[trigger] a[i] is SkStorageGet ==> ({
                &&& a[i]->init.active
                &&& !a[i]->init.fastopen
                &&& !a[i]->init.syncookie
                &&& a[i]->init.resend_syn == spec_test_option_flags(g1.active_estab_in.flags, OPTION_RESEND)
                &&& i == 1
                &&& a[0] is LoadHdrOpt
            })
            &&& r == CG_OK ==> !no_storage_get(a)
        }),
{
    let (r, a, g1) = spec_handle_active_estab(s, g, k);
    let (err, o_in, la) = spec_load_option(g.active_estab_in, false, g, k);
    let g1b = HdrOptGlobals { active_estab_in: o_in, ..g };
    assert(la is LoadHdrOpt);
    let las = seq![la];
    assert(no_storage_get(las));
    lemma_error_tail_actions(s, k, g1b.active_syn_out.max_delack_ms, o_in.max_delack_ms, ERR_ACTIVE_LOAD,
        ERR_ACTIVE_DELACK, ERR_ACTIVE_RTO, err as i32);
    lemma_error_tail_actions(s, k, 0, 0, ERR_ACTIVE_STG, 0, 0, 0);
    if load_failed(err) {
        lemma_no_actions_concat(las, cg_err(s, err as i32, ERR_ACTIVE_LOAD));
    } else {
        let st = hdr_stg { active: true, resend_syn: spec_test_option_flags(o_in.flags, OPTION_RESEND), syncookie: false, fastopen: false };
        let stg = stg_create(s, st);
        let pre = las + stg;
        let fa = if st.resend_syn {
            seq![HdrAction::SetParseAllHdrCbFlags]
        } else if g1b.active_fin_out.flags == 0 {
            seq![HdrAction::ClearHdrCbFlags]
        } else {
            seq![]
        };
        let tail = if s.sk == 0 || !k.storage_created {
            cg_err(s, 0, ERR_ACTIVE_STG)
        } else {
            fa + spec_delack_rto(s, k, g1b.active_syn_out.max_delack_ms, o_in.max_delack_ms, ERR_ACTIVE_DELACK, ERR_ACTIVE_RTO).1
        };
        assert(no_storage_get(fa));
        lemma_no_actions_concat(fa, spec_delack_rto(s, k, g1b.active_syn_out.max_delack_ms, o_in.max_delack_ms, ERR_ACTIVE_DELACK, ERR_ACTIVE_RTO).1);
        assert(no_storage_get(tail));
        assert(a =~= pre + tail);
        assert forall|i: int| 0 <= i < a.len() && #[trigger] a[i] is SkStorageGet implies ({
            &&& a[i]->init.active
            &&& !a[i]->init.fastopen
            &&& !a[i]->init.syncookie
            &&& a[i]->init.resend_syn == spec_test_option_flags(g1.active_estab_in.flags, OPTION_RESEND)
            &&& i == 1
            &&& a[0] is LoadHdrOpt
        }) by {
            if i < 1 {
                assert(a[i] == las[i]);
            } else if i < pre.len() {
                assert(a[i] == stg[i - 1]);
                assert(a[0] == la);
            } else {
                assert(a[i] == tail[i - pre.len()]);
            }
        }
        if s.sk != 0 && k.storage_created {
            assert(a[1] == stg[0]);
        }
    }
}

pub open spec fn spec_handle_parse_hdr(s: bpf_sock_ops, g: HdrOptGlobals, k: HdrAnswers) -> (i32, Seq<HdrAction>, HdrOptGlobals) {
    if s.sk == 0 {
        (CG_ERR, cg_err(s, 0, ERR_PARSE_NO_SK), g)
    } else if short_tcp_header(s) {
        (CG_ERR, cg_err(s, 0, ERR_PARSE_SHORT_HDR), g)
    } else {
        let a = seq![HdrAction::SkStorageGet { init: zero_stg(), create: false }];
        match k.storage {
            None => (CG_ERR, a + cg_err(s, 0, ERR_PARSE_NO_STG), g),
            Some(st) => {
                let c1 = if st.resend_syn || st.fastopen { seq![HdrAction::ClearParseAllHdrCbFlags] } else { seq![] };
                let c2 = if st.resend_syn && g.active_fin_out.flags == 0 { seq![HdrAction::ClearHdrCbFlags] } else { seq![] };
                let c3 = if st.fastopen && g.passive_fin_out.flags == 0 { seq![HdrAction::ClearHdrCbFlags] } else { seq![] };
                let pre = a + c1 + c2 + c3;
                if k.tcp_header[13] & 1u8 != 0 {
                    let target = if st.active { g.active_fin_in } else { g.passive_fin_in };
                    let (err, o, la) = spec_load_option(target, false, g, k);
                    let g1 = if st.active { HdrOptGlobals { active_fin_in: o, ..g } } else { HdrOptGlobals { passive_fin_in: o, ..g } };
                    if load_failed(err) {
                        (CG_ERR, pre + seq![la] + cg_err(s, err as i32, ERR_PARSE_LOAD), g1)
                    } else {
                        (CG_OK, pre + seq![la], g1)
                    }
                } else {
                    (CG_OK, pre, g)
                }
            },
        }
    }
}

/// The whole program on one callback.
pub open spec fn spec_estab(s: bpf_sock_ops, g: HdrOptGlobals, k: HdrAnswers) -> (i32, Seq<HdrAction>, HdrOptGlobals) {
    let op = s.op;
    if op == BPF_SOCK_OPS_TCP_LISTEN_CB {
        (CG_OK, seq![
            HdrAction::SetSockOpt { optname: TCP_SAVE_SYN, optval: 1 },
            HdrAction::SetHdrCbFlags { extra: BPF_SOCK_OPS_STATE_CB_FLAG },
        ], g)
    } else if op == BPF_SOCK_OPS_TCP_CONNECT_CB {
        (CG_OK, seq![HdrAction::SetHdrCbFlags { extra: 0 }], g)
    } else if op == BPF_SOCK_OPS_PARSE_HDR_OPT_CB {
        spec_handle_parse_hdr(s, g, k)
    } else if op == BPF_SOCK_OPS_HDR_OPT_LEN_CB {
        let (r, a) = spec_handle_hdr_opt_len(s, g, k);
        (r, a, g)
    } else if op == BPF_SOCK_OPS_WRITE_HDR_OPT_CB {
        let (r, a) = spec_handle_write_hdr_opt(s, g, k);
        (r, a, g)
    } else if op == BPF_SOCK_OPS_PASSIVE_ESTABLISHED_CB {
        spec_handle_passive_estab(s, g, k)
    } else if op == BPF_SOCK_OPS_ACTIVE_ESTABLISHED_CB {
        spec_handle_active_estab(s, g, k)
    } else {
        (CG_OK, seq![], g)
    }
}

// ---------------------------------------------------------------------
// Handlers
// ---------------------------------------------------------------------

/// The "no such option" error of an option load.
pub fn libc_enomsg() -> (r: u32)
    ensures
        r == 42,
{
    42
}

/// The "no saved SYN" error of an option load.
pub fn libc_enoent() -> (r: u32)
    ensures
        r == 2,
{
    2
}

/// Whether the SYN-ACK being written carries a SYN cookie.
pub fn skops_want_cookie(skops: &bpf_sock_ops) -> (r: bool)
    ensures
        r == (skops.args[0] == BPF_WRITE_HDR_TCP_SYNACK_COOKIE),
{
    skops.args[0] == BPF_WRITE_HDR_TCP_SYNACK_COOKIE
}

/// Whether the kernel is computing the MSS.
pub fn skops_current_mss(skops: &bpf_sock_ops) -> (r: bool)
    ensures
        r == (skops.args[0] == BPF_WRITE_HDR_TCP_CURRENT_MSS),
{
    skops.args[0] == BPF_WRITE_HDR_TCP_CURRENT_MSS
}

/// The TCP flags of the current packet.
pub fn skops_tcp_flags(skops: &bpf_sock_ops) -> (r: u8)
    ensures
        r == skops.skb_tcp_flags as u8,
{
    skops.skb_tcp_flags as u8
}

/// Records the error and switches the header-option callbacks off;
/// returns the error return code.
pub fn ret_cg_err(skops: &bpf_sock_ops, err: i32, linum: u32, acts: &mut Vec<HdrAction>) -> (r: i32)
    ensures
        r == CG_ERR,
        final(acts)@ == old(acts)@ + cg_err(*skops, err, linum),
{
    let lport = skops.local_port as i32;
    acts.push(HdrAction::ReportError { lport, le: linum_err { linum, err } });
    acts.push(HdrAction::ClearHdrCbFlags);
    acts.push(HdrAction::ClearParseAllHdrCbFlags);
    assert(acts@ =~= old(acts)@ + cg_err(*skops, err, linum));
    CG_ERR
}

/// Stores the option `test_opt`.
pub fn store_option(skops: &bpf_sock_ops, test_opt: &bpf_test_option, g: &HdrOptGlobals, k: &HdrAnswers, acts: &mut Vec<HdrAction>) -> (r: i32)
    ensures
        r == spec_store_option(*skops, *test_opt, *g, *k).0,
        final(acts)@ == old(acts)@ + spec_store_option(*skops, *test_opt, *g, *k).1,
{
    let (b, n) = option_bytes(test_opt, g);
    acts.push(HdrAction::StoreHdrOpt { opt: b, len: n });
    if k.store_ret != 0 {
        let r = ret_cg_err(skops, k.store_ret as i32, ERR_STORE, acts);
        assert(acts@ =~= old(acts)@ + spec_store_option(*skops, *test_opt, *g, *k).1);
        return r;
    }
    assert(acts@ =~= old(acts)@ + spec_store_option(*skops, *test_opt, *g, *k).1);
    CG_OK
}

/// Loads the option into `test_opt` (from the saved SYN if `from_syn`);
/// returns the load error, or 0.
pub fn load_option(test_opt: &mut bpf_test_option, from_syn: bool, g: &HdrOptGlobals, k: &HdrAnswers, acts: &mut Vec<HdrAction>) -> (r: i64)
    ensures
        ({
            let (e, o, a) = spec_load_option(*old(test_opt), from_syn, *g, *k);
            &&& r == e
            &&& *final(test_opt) == o
            &&& final(acts)@ == old(acts)@.push(a)
        }),
{
    let load_flags: u64 = if from_syn { BPF_LOAD_HDR_OPT_TCP_SYN } else { 0 };
    let (b, n) = search_bytes(g);
    acts.push(HdrAction::LoadHdrOpt { search: b, len: n, flags: load_flags });
    let (ret, buf) = if from_syn { (k.load_syn_ret, k.load_syn_buf) } else { (k.load_pkt_ret, k.load_pkt_buf) };
    if ret < 0 {
        return ret;
    }
    let data: [u8; 4] = if g.test_kind == TCPOPT_EXP {
        [buf[4], buf[5], buf[6], buf[7]]
    } else {
        [buf[2], buf[3], buf[4], buf[5]]
    };
    assert(data@ =~= loaded_data(*g, buf));
    parse_test_option(test_opt, &data);
    0
}

fn reserve_opt(skops: &bpf_sock_ops, len: u8, k: &HdrAnswers, site: u32, acts: &mut Vec<HdrAction>) -> (r: i32)
    ensures
        r == spec_reserve(*skops, len, *k, site).0,
        final(acts)@ == old(acts)@ + spec_reserve(*skops, len, *k, site).1,
{
    if len == 0 {
        assert(acts@ =~= old(acts)@ + spec_reserve(*skops, len, *k, site).1);
        return CG_OK;
    }
    acts.push(HdrAction::ReserveHdrOpt { len: len as u32 });
    if k.reserve_ret != 0 {
        let r = ret_cg_err(skops, k.reserve_ret as i32, site, acts);
        assert(acts@ =~= old(acts)@ + spec_reserve(*skops, len, *k, site).1);
        return r;
    }
    assert(acts@ =~= old(acts)@ + spec_reserve(*skops, len, *k, site).1);
    CG_OK
}

/// Space for the SYN-ACK option, if the SYN carried one.
pub fn synack_opt_len(skops: &bpf_sock_ops, g: &HdrOptGlobals, k: &HdrAnswers, acts: &mut Vec<HdrAction>) -> (r: i32)
    ensures
        r == spec_synack_opt_len(*skops, *g, *k).0,
        final(acts)@ == old(acts)@ + spec_synack_opt_len(*skops, *g, *k).1,
{
    if g.passive_synack_out.flags == 0 {
        assert(acts@ =~= old(acts)@ + spec_synack_opt_len(*skops, *g, *k).1);
        return CG_OK;
    }
    let mut test_opt = bpf_test_option { flags: 0, max_delack_ms: 0, rand: 0 };
    let ghost a0 = acts@;
    let err = load_option(&mut test_opt, true, g, k, acts);
    let ghost a1 = acts@;
    if err == -(libc_enomsg() as i64) {
        assert(acts@ =~= old(acts)@ + spec_synack_opt_len(*skops, *g, *k).1);
        return CG_OK;
    }
    if err != 0 {
        let r = ret_cg_err(skops, err as i32, ERR_SYNACK_LOAD, acts);
        assert(acts@ =~= old(acts)@ + spec_synack_opt_len(*skops, *g, *k).1);
        return r;
    }
    let optlen = option_total_len(g.passive_synack_out.flags, g.test_kind);
    let r = reserve_opt(skops, optlen, k, ERR_SYNACK_RESERVE, acts);
    assert(acts@ =~= old(acts)@ + spec_synack_opt_len(*skops, *g, *k).1);
    r
}

/// Writes the SYN-ACK option (with the resend bit when answering with a
/// SYN cookie).
pub fn write_synack_opt(skops: &bpf_sock_ops, g: &HdrOptGlobals, k: &HdrAnswers, acts: &mut Vec<HdrAction>) -> (r: i32)
    ensures
        r == spec_write_synack_opt(*skops, *g, *k).0,
        final(acts)@ == old(acts)@ + spec_write_synack_opt(*skops, *g, *k).1,
{
    if g.passive_synack_out.flags == 0 {
        return ret_cg_err(skops, 0, ERR_SYNACK_EMPTY, acts);
    }
    let mut opt = g.passive_synack_out;
    if skops_want_cookie(skops) {
        opt.flags = set_option_flags(opt.flags, OPTION_RESEND);
        assert(1u8 << 0u8 == 1u8) by (bit_vector);
    }
    store_option(skops, &opt, g, k, acts)
}

/// Space for the SYN option.
pub fn syn_opt_len(skops: &bpf_sock_ops, g: &HdrOptGlobals, k: &HdrAnswers, acts: &mut Vec<HdrAction>) -> (r: i32)
    ensures
        r == spec_syn_opt_len(*skops, *g, *k).0,
        final(acts)@ == old(acts)@ + spec_syn_opt_len(*skops, *g, *k).1,
{
    let flags = g.active_syn_out.flags;
    if flags == 0 {
        assert(acts@ =~= old(acts)@ + spec_syn_opt_len(*skops, *g, *k).1);
        return CG_OK;
    }
    let optlen = option_total_len(flags, g.test_kind);
    reserve_opt(skops, optlen, k, ERR_SYN_RESERVE, acts)
}

/// Writes the SYN option.
pub fn write_syn_opt(skops: &bpf_sock_ops, g: &HdrOptGlobals, k: &HdrAnswers, acts: &mut Vec<HdrAction>) -> (r: i32)
    ensures
        r == spec_write_syn_opt(*skops, *g, *k).0,
        final(acts)@ == old(acts)@ + spec_write_syn_opt(*skops, *g, *k).1,
{
    if g.active_syn_out.flags == 0 {
        return ret_cg_err(skops, 0, ERR_SYN_EMPTY, acts);
    }
    store_option(skops, &g.active_syn_out, g, k, acts)
}

fn lookup_stg(skops: &bpf_sock_ops, k: &HdrAnswers, acts: &mut Vec<HdrAction>) -> (r: Option<hdr_stg>)
    ensures
        r == stg_lookup(*skops, *k).0,
        final(acts)@ == old(acts)@ + stg_lookup(*skops, *k).1,
{
    if skops.sk == 0 {
        assert(acts@ =~= old(acts)@ + stg_lookup(*skops, *k).1);
        return None;
    }
    acts.push(HdrAction::SkStorageGet { init: hdr_stg { active: false, resend_syn: false, syncookie: false, fastopen: false }, create: false });
    assert(acts@ =~= old(acts)@ + stg_lookup(*skops, *k).1);
    k.storage
}

/// The FIN option of the socket's side, if the socket has storage.
pub fn fin_opt(skops: &bpf_sock_ops, g: &HdrOptGlobals, k: &HdrAnswers, acts: &mut Vec<HdrAction>) -> (r: Option<bpf_test_option>)
    ensures
        r == spec_fin_opt(*skops, *g, *k).0,
        final(acts)@ == old(acts)@ + spec_fin_opt(*skops, *g, *k).1,
{
    match lookup_stg(skops, k, acts) {
        None => None,
        Some(st) => Some(if st.active { g.active_fin_out } else { g.passive_fin_out }),
    }
}

/// Space for the FIN option.
pub fn fin_opt_len(skops: &bpf_sock_ops, g: &HdrOptGlobals, k: &HdrAnswers, acts: &mut Vec<HdrAction>) -> (r: i32)
    ensures
        r == spec_fin_opt_len(*skops, *g, *k).0,
        final(acts)@ == old(acts)@ + spec_fin_opt_len(*skops, *g, *k).1,
{
    let ghost a0 = acts@;
    let opt = match fin_opt(skops, g, k, acts) {
        Some(opt) => opt,
        None => {
            let r = ret_cg_err(skops, 0, ERR_FIN_NO_STG, acts);
            assert(acts@ =~= old(acts)@ + spec_fin_opt_len(*skops, *g, *k).1);
            return r;
        },
    };
    let optlen = option_total_len(opt.flags, g.test_kind);
    let r = reserve_opt(skops, optlen, k, ERR_FIN_RESERVE, acts);
    assert(acts@ =~= old(acts)@ + spec_fin_opt_len(*skops, *g, *k).1);
    r
}

/// Writes the FIN option.
pub fn write_fin_opt(skops: &bpf_sock_ops, g: &HdrOptGlobals, k: &HdrAnswers, acts: &mut Vec<HdrAction>) -> (r: i32)
    ensures
        r == spec_write_fin_opt(*skops, *g, *k).0,
        final(acts)@ == old(acts)@ + spec_write_fin_opt(*skops, *g, *k).1,
{
    let opt = match fin_opt(skops, g, k, acts) {
        Some(opt) => opt,
        None => {
            let r = ret_cg_err(skops, 0, ERR_WRITE_FIN_NO_STG, acts);
            assert(acts@ =~= old(acts)@ + spec_write_fin_opt(*skops, *g, *k).1);
            return r;
        },
    };
    if opt.flags == 0 {
        let r = ret_cg_err(skops, 0, ERR_WRITE_FIN_EMPTY, acts);
        assert(acts@ =~= old(acts)@ + spec_write_fin_opt(*skops, *g, *k).1);
        return r;
    }
    let r = store_option(skops, &opt, g, k, acts);
    assert(acts@ =~= old(acts)@ + spec_write_fin_opt(*skops, *g, *k).1);
    r
}

/// Whether the SYN option is to be resent in ACKs (-1: no storage).
pub fn resend_in_ack(skops: &bpf_sock_ops, k: &HdrAnswers, acts: &mut Vec<HdrAction>) -> (r: i32)
    ensures
        r == spec_resend_in_ack(*skops, *k).0,
        final(acts)@ == old(acts)@ + spec_resend_in_ack(*skops, *k).1,
{
    match lookup_stg(skops, k, acts) {
        None => -1,
        Some(st) => if st.resend_syn { 1 } else { 0 },
    }
}

/// Space for an option on a packet without data: the SYN option again
/// while it is to be resent.
pub fn nodata_opt_len(skops: &bpf_sock_ops, g: &HdrOptGlobals, k: &HdrAnswers, acts: &mut Vec<HdrAction>) -> (r: i32)
    ensures
        r == spec_nodata_opt_len(*skops, *g, *k).0,
        final(acts)@ == old(acts)@ + spec_nodata_opt_len(*skops, *g, *k).1,
{
    let resend = resend_in_ack(skops, k, acts);
    if resend < 0 {
        let r = ret_cg_err(skops, 0, ERR_NODATA_NO_STG, acts);
        assert(acts@ =~= old(acts)@ + spec_nodata_opt_len(*skops, *g, *k).1);
        return r;
    }
    if resend != 0 {
        let r = syn_opt_len(skops, g, k, acts);
        assert(acts@ =~= old(acts)@ + spec_nodata_opt_len(*skops, *g, *k).1);
        return r;
    }
    CG_OK
}

/// Writes the option on a packet without data.
pub fn write_nodata_opt(skops: &bpf_sock_ops, g: &HdrOptGlobals, k: &HdrAnswers, acts: &mut Vec<HdrAction>) -> (r: i32)
    ensures
        r == spec_write_nodata_opt(*skops, *g, *k).0,
        final(acts)@ == old(acts)@ + spec_write_nodata_opt(*skops, *g, *k).1,
{
    let resend = resend_in_ack(skops, k, acts);
    if resend < 0 {
        let r = ret_cg_err(skops, 0, ERR_WRITE_NODATA_NO_STG, acts);
        assert(acts@ =~= old(acts)@ + spec_write_nodata_opt(*skops, *g, *k).1);
        return r;
    }
    if resend != 0 {
        let r = write_syn_opt(skops, g, k, acts);
        assert(acts@ =~= old(acts)@ + spec_write_nodata_opt(*skops, *g, *k).1);
        return r;
    }
    CG_OK
}

/// Space for an option on a data packet: as without data.
pub fn data_opt_len(skops: &bpf_sock_ops, g: &HdrOptGlobals, k: &HdrAnswers, acts: &mut Vec<HdrAction>) -> (r: i32)
    ensures
        r == spec_nodata_opt_len(*skops, *g, *k).0,
        final(acts)@ == old(acts)@ + spec_nodata_opt_len(*skops, *g, *k).1,
{
    nodata_opt_len(skops, g, k, acts)
}

/// Writes the option on a data packet: as without data.
pub fn write_data_opt(skops: &bpf_sock_ops, g: &HdrOptGlobals, k: &HdrAnswers, acts: &mut Vec<HdrAction>) -> (r: i32)
    ensures
        r == spec_write_nodata_opt(*skops, *g, *k).0,
        final(acts)@ == old(acts)@ + spec_write_nodata_opt(*skops, *g, *k).1,
{
    write_nodata_opt(skops, g, k, acts)
}

/// Space for the largest option, while the kernel computes the MSS.
pub fn current_mss_opt_len(skops: &bpf_sock_ops, g: &HdrOptGlobals, k: &HdrAnswers, acts: &mut Vec<HdrAction>) -> (r: i32)
    ensures
        r == spec_reserve(*skops, spec_option_total_len(OPTION_MASK, g.test_kind), *k, ERR_MSS_RESERVE).0,
        final(acts)@ == old(acts)@ + spec_reserve(*skops, spec_option_total_len(OPTION_MASK, g.test_kind), *k, ERR_MSS_RESERVE).1,
{
    let len = option_total_len(OPTION_MASK, g.test_kind);
    reserve_opt(skops, len, k, ERR_MSS_RESERVE, acts)
}

fn short_header(skops: &bpf_sock_ops) -> (r: bool)
    ensures
        r == short_tcp_header(*skops),
{
    skops.skb_data_end < TCPHDR_LEN || skops.skb_data > skops.skb_data_end - TCPHDR_LEN
}

/// How much option space the packet being built needs.
pub fn handle_hdr_opt_len(skops: &bpf_sock_ops, g: &HdrOptGlobals, k: &HdrAnswers, acts: &mut Vec<HdrAction>) -> (r: i32)
    ensures
        r == spec_handle_hdr_opt_len(*skops, *g, *k).0,
        final(acts)@ == old(acts)@ + spec_handle_hdr_opt_len(*skops, *g, *k).1,
{
    let tcp_flags = skops_tcp_flags(skops) as u32;
    if (tcp_flags & TCPHDR_SYNACK) == TCPHDR_SYNACK {
        return synack_opt_len(skops, g, k, acts);
    }
    if tcp_flags & TCPHDR_SYN != 0 {
        return syn_opt_len(skops, g, k, acts);
    }
    if tcp_flags & TCPHDR_FIN != 0 {
        return fin_opt_len(skops, g, k, acts);
    }
    if skops_current_mss(skops) {
        return current_mss_opt_len(skops, g, k, acts);
    }
    if skops.skb_len != 0 {
        return data_opt_len(skops, g, k, acts);
    }
    nodata_opt_len(skops, g, k, acts)
}

/// Writes the option of the packet being built.
pub fn handle_write_hdr_opt(skops: &bpf_sock_ops, g: &HdrOptGlobals, k: &HdrAnswers, acts: &mut Vec<HdrAction>) -> (r: i32)
    ensures
        r == spec_handle_write_hdr_opt(*skops, *g, *k).0,
        final(acts)@ == old(acts)@ + spec_handle_write_hdr_opt(*skops, *g, *k).1,
{
    let tcp_flags = skops_tcp_flags(skops) as u32;
    if (tcp_flags & TCPHDR_SYNACK) == TCPHDR_SYNACK {
        return write_synack_opt(skops, g, k, acts);
    }
    if tcp_flags & TCPHDR_SYN != 0 {
        return write_syn_opt(skops, g, k, acts);
    }
    if tcp_flags & TCPHDR_FIN != 0 {
        return write_fin_opt(skops, g, k, acts);
    }
    if short_header(skops) {
        return ret_cg_err(skops, 0, ERR_WRITE_SHORT_HDR, acts);
    }
    let doff_byte = k.tcp_header[12];
    let hdrlen = ((doff_byte >> 4u8) as u32) << 2u32;
    if skops.skb_len > hdrlen {
        write_data_opt(skops, g, k, acts)
    } else {
        write_nodata_opt(skops, g, k, acts)
    }
}

/// Sets our delayed-ACK maximum.
pub fn set_delack_max(max_delack_ms: u8, k: &HdrAnswers, acts: &mut Vec<HdrAction>) -> (r: i64)
    ensures
        r == k.delack_ret,
        final(acts)@ == old(acts)@.push(HdrAction::SetSockOpt { optname: TCP_BPF_DELACK_MAX, optval: (max_delack_ms as u32 * 1000) as u32 }),
{
    let max_delack_us: u32 = (max_delack_ms as u32) * 1000;
    acts.push(HdrAction::SetSockOpt { optname: TCP_BPF_DELACK_MAX, optval: max_delack_us });
    k.delack_ret
}

/// Sets the RTO minimum from the peer's delayed-ACK maximum.
pub fn set_rto_min(peer_max_delack_ms: u8, k: &HdrAnswers, acts: &mut Vec<HdrAction>) -> (r: i64)
    ensures
        r == k.rto_ret,
        final(acts)@ == old(acts)@.push(HdrAction::SetSockOpt { optname: TCP_BPF_RTO_MIN, optval: (peer_max_delack_ms as u32 * 1000) as u32 }),
{
    let min_rto_us: u32 = (peer_max_delack_ms as u32) * 1000;
    acts.push(HdrAction::SetSockOpt { optname: TCP_BPF_RTO_MIN, optval: min_rto_us });
    k.rto_ret
}

fn delack_rto(skops: &bpf_sock_ops, k: &HdrAnswers, ms: u8, peer_ms: u8, site1: u32, site2: u32, acts: &mut Vec<HdrAction>) -> (r: i32)
    ensures
        r == spec_delack_rto(*skops, *k, ms, peer_ms, site1, site2).0,
        final(acts)@ == old(acts)@ + spec_delack_rto(*skops, *k, ms, peer_ms, site1, site2).1,
{
    if ms != 0 {
        let err = set_delack_max(ms, k, acts);
        if err != 0 {
            let r = ret_cg_err(skops, err as i32, site1, acts);
            assert(acts@ =~= old(acts)@ + spec_delack_rto(*skops, *k, ms, peer_ms, site1, site2).1);
            return r;
        }
    }
    let ghost a1 = acts@;
    if peer_ms != 0 {
        let err = set_rto_min(peer_ms, k, acts);
        if err != 0 {
            let r = ret_cg_err(skops, err as i32, site2, acts);
            assert(acts@ =~= old(acts)@ + spec_delack_rto(*skops, *k, ms, peer_ms, site1, site2).1);
            return r;
        }
    }
    assert(acts@ =~= old(acts)@ + spec_delack_rto(*skops, *k, ms, peer_ms, site1, site2).1);
    CG_OK
}

/// The active side is established: read the peer's option from the ACK,
/// keep per-socket storage, and apply the delayed-ACK values.
pub fn handle_active_estab(skops: &bpf_sock_ops, g: &mut HdrOptGlobals, k: &HdrAnswers, acts: &mut Vec<HdrAction>) -> (r: i32)
    ensures
        (r, final(acts)@, *final(g)) == ({
            let (r0, a, g1) = spec_handle_active_estab(*skops, *old(g), *k);
            (r0, old(acts)@ + a, g1)
        }),
{
    let ghost g0 = *g;
    let gc = *g;
    let ghost a0 = acts@;
    let err = load_option(&mut g.active_estab_in, false, &gc, k, acts);
    if err != 0 && err != -(libc_enomsg() as i64) {
        let r = ret_cg_err(skops, err as i32, ERR_ACTIVE_LOAD, acts);
        assert(acts@ =~= a0 + spec_handle_active_estab(*skops, g0, *k).1);
        return r;
    }
    let resend_syn = test_option_flags(g.active_estab_in.flags, OPTION_RESEND);
    let init_stg = hdr_stg { active: true, resend_syn, syncookie: false, fastopen: false };
    if skops.sk != 0 {
        acts.push(HdrAction::SkStorageGet { init: init_stg, create: true });
    }
    if skops.sk == 0 || !k.storage_created {
        let r = ret_cg_err(skops, 0, ERR_ACTIVE_STG, acts);
        assert(acts@ =~= a0 + spec_handle_active_estab(*skops, g0, *k).1);
        return r;
    }
    if resend_syn {
        acts.push(HdrAction::SetParseAllHdrCbFlags);
    } else if g.active_fin_out.flags == 0 {
        acts.push(HdrAction::ClearHdrCbFlags);
    }
    let r = delack_rto(skops, k, g.active_syn_out.max_delack_ms, g.active_estab_in.max_delack_ms, ERR_ACTIVE_DELACK, ERR_ACTIVE_RTO, acts);
    assert(acts@ =~= a0 + spec_handle_active_estab(*skops, g0, *k).1);
    r
}

/// The passive side is established: read the peer's option from the saved
/// SYN (from the ACK in SYN-cookie mode), keep per-socket storage, and
/// apply the delayed-ACK values.
pub fn handle_passive_estab(skops: &bpf_sock_ops, g: &mut HdrOptGlobals, k: &HdrAnswers, acts: &mut Vec<HdrAction>) -> (r: i32)
    ensures
        (r, final(acts)@, *final(g)) == ({
            let (r0, a, g1) = spec_handle_passive_estab(*skops, *old(g), *k);
            (r0, old(acts)@ + a, g1)
        }),
{
    let ghost g0 = *g;
    let ghost a0 = acts@;
    g.inherit_cb_flags = skops.bpf_sock_ops_cb_flags;
    let gc = *g;
    let mut syncookie = false;
    let mut err = load_option(&mut g.passive_estab_in, true, &gc, k, acts);
    if err == -(libc_enoent() as i64) {
        err = load_option(&mut g.passive_estab_in, false, &gc, k, acts);
        syncookie = true;
    }
    if err != 0 && err != -(libc_enomsg() as i64) {
        let r = ret_cg_err(skops, err as i32, ERR_PASSIVE_LOAD, acts);
        assert(acts@ =~= a0 + spec_handle_passive_estab(*skops, g0, *k).1);
        return r;
    }
    if short_header(skops) {
        let r = ret_cg_err(skops, 0, ERR_PASSIVE_SHORT_HDR, acts);
        assert(acts@ =~= a0 + spec_handle_passive_estab(*skops, g0, *k).1);
        return r;
    }
    let flags_byte = k.tcp_header[13];
    let syn = (flags_byte >> 1u8) & 1u8;
    if syn != 0 {
        acts.push(HdrAction::SetParseAllHdrCbFlags);
    } else if g.passive_fin_out.flags == 0 {
        acts.push(HdrAction::ClearHdrCbFlags);
    }
    let init_stg = hdr_stg { active: false, resend_syn: false, syncookie, fastopen: syn != 0 };
    if skops.sk != 0 {
        acts.push(HdrAction::SkStorageGet { init: init_stg, create: true });
    }
    if skops.sk == 0 || !k.storage_created {
        let r = ret_cg_err(skops, 0, ERR_PASSIVE_STG, acts);
        assert(acts@ =~= a0 + spec_handle_passive_estab(*skops, g0, *k).1);
        return r;
    }
    let r = delack_rto(skops, k, g.passive_synack_out.max_delack_ms, g.passive_estab_in.max_delack_ms, ERR_PASSIVE_DELACK, ERR_PASSIVE_RTO, acts);
    assert(acts@ =~= a0 + spec_handle_passive_estab(*skops, g0, *k).1);
    r
}

/// A packet was received: stop asking for every packet once the 3-way
/// handshake options have surely arrived, and read the FIN option.
pub fn handle_parse_hdr(skops: &bpf_sock_ops, g: &mut HdrOptGlobals, k: &HdrAnswers, acts: &mut Vec<HdrAction>) -> (r: i32)
    ensures
        (r, final(acts)@, *final(g)) == ({
            let (r0, a, g1) = spec_handle_parse_hdr(*skops, *old(g), *k);
            (r0, old(acts)@ + a, g1)
        }),
{
    let ghost g0 = *g;
    let ghost a0 = acts@;
    if skops.sk == 0 {
        return ret_cg_err(skops, 0, ERR_PARSE_NO_SK, acts);
    }
    if short_header(skops) {
        return ret_cg_err(skops, 0, ERR_PARSE_SHORT_HDR, acts);
    }
    acts.push(HdrAction::SkStorageGet { init: hdr_stg { active: false, resend_syn: false, syncookie: false, fastopen: false }, create: false });
    let st = match k.storage {
        None => {
            let r = ret_cg_err(skops, 0, ERR_PARSE_NO_STG, acts);
            assert(acts@ =~= a0 + spec_handle_parse_hdr(*skops, g0, *k).1);
            return r;
        },
        Some(st) => st,
    };
    if st.resend_syn || st.fastopen {
        acts.push(HdrAction::ClearParseAllHdrCbFlags);
    }
    if st.resend_syn && g.active_fin_out.flags == 0 {
        acts.push(HdrAction::ClearHdrCbFlags);
    }
    if st.fastopen && g.passive_fin_out.flags == 0 {
        acts.push(HdrAction::ClearHdrCbFlags);
    }
    let fin = k.tcp_header[13] & 1u8;
    if fin != 0 {
        let gc = *g;
        let err = if st.active {
            load_option(&mut g.active_fin_in, false, &gc, k, acts)
        } else {
            load_option(&mut g.passive_fin_in, false, &gc, k, acts)
        };
        if err != 0 && err != -(libc_enomsg() as i64) {
            let r = ret_cg_err(skops, err as i32, ERR_PARSE_LOAD, acts);
            assert(acts@ =~= a0 + spec_handle_parse_hdr(*skops, g0, *k).1);
            return r;
        }
    }
    assert(acts@ =~= a0 + spec_handle_parse_hdr(*skops, g0, *k).1);
    CG_OK
}

/// The socket-operations callback (see [`spec_estab`]).
pub fn estab(skops: &bpf_sock_ops, g: &mut HdrOptGlobals, k: &HdrAnswers, acts: &mut Vec<HdrAction>) -> (r: i32)
    ensures
        (r, final(acts)@, *final(g)) == ({
            let (r0, a, g1) = spec_estab(*skops, *old(g), *k);
            (r0, old(acts)@ + a, g1)
        }),
{
    let op = skops.op;
    if op == BPF_SOCK_OPS_TCP_LISTEN_CB {
        acts.push(HdrAction::SetSockOpt { optname: TCP_SAVE_SYN, optval: 1 });
        acts.push(HdrAction::SetHdrCbFlags { extra: BPF_SOCK_OPS_STATE_CB_FLAG });
    } else if op == BPF_SOCK_OPS_TCP_CONNECT_CB {
        acts.push(HdrAction::SetHdrCbFlags { extra: 0 });
    } else if op == BPF_SOCK_OPS_PARSE_HDR_OPT_CB {
        return handle_parse_hdr(skops, g, k, acts);
    } else if op == BPF_SOCK_OPS_HDR_OPT_LEN_CB {
        return handle_hdr_opt_len(skops, g, k, acts);
    } else if op == BPF_SOCK_OPS_WRITE_HDR_OPT_CB {
        return handle_write_hdr_opt(skops, g, k, acts);
    } else if op == BPF_SOCK_OPS_PASSIVE_ESTABLISHED_CB {
        return handle_passive_estab(skops, g, k, acts);
    } else if op == BPF_SOCK_OPS_ACTIVE_ESTABLISHED_CB {
        return handle_active_estab(skops, g, k, acts);
    }
    assert(acts@ =~= old(acts)@ + spec_estab(*skops, *old(g), *k).1);
    CG_OK
}

/// Option exchange law: when the peer loads the option this side stores
/// (the load finds exactly those bytes), it reads back the flags and every
/// field whose flag is set.
pub proof fn lemma_store_then_load(o: bpf_test_option, g: HdrOptGlobals, k: HdrAnswers, prev: bpf_test_option, from_syn: bool)
    requires
        load_answer(k, from_syn).0 >= 0,
        load_answer(k, from_syn).1 == store_bytes(o, g).0,
    ensures
        ({
            let (err, p, _a) = spec_load_option(prev, from_syn, g, k);
            &&& err == 0
            &&& p.flags == o.flags
            &&& spec_test_option_flags(o.flags, OPTION_MAX_DELACK_MS) ==> p.max_delack_ms == o.max_delack_ms
            &&& spec_test_option_flags(o.flags, OPTION_RAND) ==> p.rand == o.rand
        }),
{
    let d = spec_write_option(o, seq![0u8, 0u8, 0u8, 0u8]);
    let buf = store_bytes(o, g).0;
    assert(loaded_data(g, buf) =~= d);
    lemma_option_roundtrip(o, seq![0u8, 0u8, 0u8, 0u8], prev);
}

/// FIN-option law: on a socket with storage, a FIN segment carries the
/// FIN option of the socket's side (active or passive) whenever that
/// option has a flag set and the kernel takes the store; the bytes stored
/// are those the peer reads back (see [`lemma_store_then_load`]).  With no
/// flag set, nothing is stored and the callback fails.
pub proof fn lemma_fin_write(s: bpf_sock_ops, g: HdrOptGlobals, k: HdrAnswers)
    requires
        s.sk != 0,
        k.storage is Some,
    ensures
        ({
            let st = k.storage.unwrap();
            let o = if st.active { g.active_fin_out } else { g.passive_fin_out };
            let (r, acts) = spec_write_fin_opt(s, g, k);
            let get = HdrAction::SkStorageGet { init: zero_stg(), create: false };
            &&& o.flags != 0 && k.store_ret == 0 ==> r == CG_OK && acts == seq![
                get,
                HdrAction::StoreHdrOpt { opt: store_bytes(o, g).0, len: store_bytes(o, g).1 },
            ]
            &&& o.flags == 0 ==> r == CG_ERR && !acts.contains(
                HdrAction::StoreHdrOpt { opt: store_bytes(o, g).0, len: store_bytes(o, g).1 },
            )
        }),
{
    let st = k.storage.unwrap();
    let o = if st.active { g.active_fin_out } else { g.passive_fin_out };
    let (r, acts) = spec_write_fin_opt(s, g, k);
    let get = HdrAction::SkStorageGet { init: zero_stg(), create: false };
    if o.flags == 0 {
        let st_act = HdrAction::StoreHdrOpt { opt: store_bytes(o, g).0, len: store_bytes(o, g).1 };
        assert(acts == seq![get] + cg_err(s, 0, ERR_WRITE_FIN_EMPTY));
        if acts.contains(st_act) {
            let j = choose|j: int| 0 <= j < acts.len() && acts[j] == st_act;
            assert(acts.len() == 3);
            assert(j == 0 || j == 1 || j == 2);
        }
    } else if k.store_ret == 0 {
        assert(acts =~= seq![get, HdrAction::StoreHdrOpt { opt: store_bytes(o, g).0, len: store_bytes(o, g).1 }]);
    }
}

} // verus!
