//! A cgroup sysctl program that, on a read of the `tcp_mem` sysctl (under
//! a long made-up name), parses the value as a run of numbers and accepts
//! it when the first three grow strictly.
//!
//! Reading the sysctl's name and value and parsing each number
//! (`bpf_strtoul`) are the kernel's: the program gives the offset of each
//! number it asks to be parsed, and takes the answers.
use vstd::prelude::*;

verus! {

/// Longest number the program parses, in characters.
pub const MAX_ULONG_STR_LEN: usize = 7;
/// Numbers the first variant of the program parses.
pub const TCP_MEM_LOOPS: usize = 28;
/// Numbers the second variant parses.
pub const TCP_MEM_LOOPS_SHORT: usize = 20;

/// Whether the sysctl is the expected one: the name buffer (as large as
/// the expected name, with its NUL) holds the expected name, and the name's
/// length (`name_ret`, the kernel's answer) is one short of the buffer.
pub open spec fn spec_is_tcp_mem(name_ret: i64, name: Seq<u8>, expected: Seq<u8>) -> bool {
    name_ret >= 0 && name_ret == expected.len() - 1 && name == expected
}

/// 1 where the sysctl is the expected one (see [`spec_is_tcp_mem`]), else 0.
pub fn is_tcp_mem(name_ret: i64, name: &[u8], expected: &[u8]) -> (r: i32)
    requires
        name@.len() == expected@.len(),
        1 <= expected@.len() <= i64::MAX,
    ensures
        r == (if spec_is_tcp_mem(name_ret, name@, expected@) { 1i32 } else { 0i32 }),
{
    let n = expected.len();
    if name_ret < 0 || name_ret != (n - 1) as i64 {
        return 0;
    }
    let mut i: usize = 0;
    while i < n
        invariant
            n == expected@.len(),
            name@.len() == n,
            i <= n,
            forall|j: int| 0 <= j < i ==> name@[j] == expected@[j],
        decreases n - i,
    {
        if name[i] != expected[i] {
            return 0;
        }
        i += 1;
    }
    assert(name@ =~= expected@);
    1
}

/// Whether a parse answer is usable: between 1 and 7 characters consumed.
pub open spec fn parse_ok(ret: i64) -> bool {
    0 < ret <= MAX_ULONG_STR_LEN
}

/// Number of parses that succeed before the first failure, out of `loops`.
pub open spec fn parse_run(parses: Seq<(i64, u64)>, loops: int, i: int) -> int
    decreases loops - i,
{
    if i >= loops || i >= parses.len() {
        i
    } else if !parse_ok(parses[i].0) {
        i
    } else {
        parse_run(parses, loops, i + 1)
    }
}

/// Offset of the `i`-th number: the characters the earlier parses consumed.
pub open spec fn parse_offset(parses: Seq<(i64, u64)>, i: int) -> int
    decreases i,
{
    if i <= 0 {
        0
    } else {
        parse_offset(parses, i - 1) + parses[i - 1].0
    }
}

/// One read of the sysctl: `write` is set for writes; `is_mem` whether the
/// name matched; `value_ret` the length of the value read; `parses[i]` the
/// answer (characters consumed, number) to parsing the `i`-th number.
/// Gives the verdict (1 accepts) and the offsets of the numbers asked for.
/// The value is refused where its read fails or fills the buffer; parsing
/// stops at the first failure (rejecting); after `loops` numbers the first
/// three must grow strictly.
pub open spec fn spec_sysctl_tcp_mem(write: u32, is_mem: bool, value_ret: i64, parses: Seq<(i64, u64)>, loops: int) -> (i32, Seq<int>) {
    if write != 0 || !is_mem {
        (0i32, seq![])
    } else if value_ret < 0 || value_ret >= loops * MAX_ULONG_STR_LEN {
        (0i32, seq![])
    } else {
        let k = parse_run(parses, loops, 0);
        let asked = if k < loops { k + 1 } else { loops };
        let offsets = Seq::new(asked as nat, |i: int| parse_offset(parses, i));
        if k < loops {
            (0i32, offsets)
        } else {
            (if parses[0].1 < parses[1].1 && parses[1].1 < parses[2].1 { 1i32 } else { 0i32 }, offsets)
        }
    }
}

proof fn lemma_parse_run_bounds(parses: Seq<(i64, u64)>, loops: int, i: int)
    requires
        0 <= i <= loops,
        loops <= parses.len(),
    ensures
        i <= parse_run(parses, loops, i) <= loops,
        forall|j: int| i <= j < parse_run(parses, loops, i) ==> parse_ok(#[trigger] parses[j].0),
        parse_run(parses, loops, i) < loops ==> !parse_ok(parses[parse_run(parses, loops, i)].0),
    decreases loops - i,
{
    if i < loops && parse_ok(parses[i].0) {
        lemma_parse_run_bounds(parses, loops, i + 1);
    }
}

proof fn lemma_offset_bound(parses: Seq<(i64, u64)>, i: int)
    requires
        0 <= i <= parses.len(),
        forall|j: int| 0 <= j < i ==> parse_ok(#[trigger] parses[j].0),
    ensures
        0 <= parse_offset(parses, i) <= i * MAX_ULONG_STR_LEN,
    decreases i,
{
    if i > 0 {
        lemma_offset_bound(parses, i - 1);
    }
}

/// The sysctl program (see [`spec_sysctl_tcp_mem`]); `loops` is the
/// variant's count, [`TCP_MEM_LOOPS`] or [`TCP_MEM_LOOPS_SHORT`].
pub fn sysctl_tcp_mem(write: u32, is_mem: bool, value_ret: i64, parses: &Vec<(i64, u64)>, loops: usize) -> (r: (i32, Vec<usize>))
    requires
        3 <= loops <= TCP_MEM_LOOPS,
        parses@.len() >= loops,
    ensures
        r.0 == spec_sysctl_tcp_mem(write, is_mem, value_ret, parses@, loops as int).0,
        r.1@.len() == spec_sysctl_tcp_mem(write, is_mem, value_ret, parses@, loops as int).1.len(),
        forall|i: int| 0 <= i < r.1@.len() ==> r.1@[i] as int == spec_sysctl_tcp_mem(write, is_mem, value_ret, parses@, loops as int).1[i],
{
    let mut offsets: Vec<usize> = Vec::new();
    if write != 0 || !is_mem {
        return (0, offsets);
    }
    if value_ret < 0 || value_ret >= (loops * MAX_ULONG_STR_LEN) as i64 {
        return (0, offsets);
    }
    let ghost k = parse_run(parses@, loops as int, 0);
    proof {
        lemma_parse_run_bounds(parses@, loops as int, 0);
    }
    let mut off: usize = 0;
    let mut i: usize = 0;
    while i < loops
        invariant
            3 <= loops <= TCP_MEM_LOOPS,
            parses@.len() >= loops,
            write == 0,
            is_mem,
            0 <= value_ret < loops * MAX_ULONG_STR_LEN,
            k == parse_run(parses@, loops as int, 0),
            0 <= k <= loops,
            forall|j: int| 0 <= j < k ==> parse_ok(#[trigger] parses@[j].0),
            k < loops ==> !parse_ok(parses@[k].0),
            i <= k,
            off == parse_offset(parses@, i as int),
            offsets@.len() == i,
            forall|j: int| 0 <= j < i ==> offsets@[j] as int == parse_offset(parses@, j),
        decreases loops - i,
    {
        proof {
            lemma_offset_bound(parses@, i as int);
        }
        offsets.push(off);
        let (ret, _res) = parses[i];
        if ret <= 0 || ret > MAX_ULONG_STR_LEN as i64 {
            return (0, offsets);
        }
        assert((ret as usize) & 7 == ret as usize) by (bit_vector)
            requires
                0 < ret <= 7,
        ;
        off = off + ((ret as usize) & MAX_ULONG_STR_LEN);
        i += 1;
    }
    let a = parses[0].1;
    let b = parses[1].1;
    let c = parses[2].1;
    if a < b && b < c {
        (1, offsets)
    } else {
        (0, offsets)
    }
}

} // verus!
