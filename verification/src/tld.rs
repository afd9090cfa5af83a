//! Task-local data: a task publishes named values in a data page, with a
//! metadata table of (name, size) entries; a value lies after the values of
//! the entries before it, each rounded up to 8 bytes.  A program finds a
//! value by name and caches its offset in a key.
use vstd::prelude::*;

verus! {

pub const PAGE_SIZE: i32 = 4096;
pub const TLD_NAME_LEN: usize = 62;
pub const TLD_MAX_DATA_CNT: i32 = 63;
pub const TLD_KEY_MAP_CREATE_RETRY: usize = 10;
pub const ENODATA: i32 = 61;
pub const ENOMEM: i32 = 12;

/// An entry of the metadata table.
#[derive(Clone, Copy)]
pub struct TldMetadata {
    pub name: [u8; 62],
    pub size: u16,
}

/// The metadata table as the task's memory holds it: the count, and the
/// entries that can be read (the others read as zeros).
pub struct TldMeta {
    pub cnt: u16,
    pub metadata: Vec<TldMetadata>,
}

/// The task's storage: the data page and the metadata table (each absent
/// where its pointer is null), and the offset of the first value.
pub struct TldMapValue {
    pub data: Option<Vec<u8>>,
    pub meta: Option<TldMeta>,
    pub start: u16,
}

/// The cached offsets (or negated counts of entries already searched) of
/// the four values the program reads.
#[derive(Clone, Copy)]
pub struct TldKeys {
    pub value0: i16,
    pub value1: i16,
    pub value2: i16,
    pub value_not_exist: i16,
}

/// The third value's layout.
#[derive(Clone, Copy)]
pub struct test_tld_struct {
    pub a: u64,
    pub b: u64,
    pub c: u64,
    pub d: u64,
}

pub open spec fn spec_round_up(x: i32, y: i32) -> i32 {
    (((x - 1) as i32 | (y - 1) as i32) + 1) as i32
}

/// `x` rounded up with the mask `y - 1`: for a power of two `y` and
/// `x >= 0`, the least multiple of `y` that is at least `x`.
pub fn tld_round_up(x: i32, y: i32) -> (r: i32)
    requires
        y > 0,
        y & ((y - 1) as i32) == 0,
        0 <= x <= i32::MAX - y + 1,
    ensures
        r == spec_round_up(x, y),
        r % y == 0,
        x <= r < x + y,
{
    let a = x - 1;
    let m = y - 1;
    let b = a | m;
    assert(b + 1 >= x && b + 1 < x + y && (b + 1) % (y as int) == 0 && b + 1 <= i32::MAX) by (bit_vector)
        requires
            a == x - 1,
            m == y - 1,
            b == a | m,
            y > 0,
            y & m == 0,
            0 <= x <= i32::MAX - y + 1,
    ;
    b + 1
}

/// The name of entry `i` as read (zeros where it cannot be read).
pub open spec fn entry_name(m: Seq<TldMetadata>, i: int) -> Seq<u8> {
    if 0 <= i < m.len() { m[i].name@ } else { Seq::new(62, |_j: int| 0u8) }
}

/// The size of entry `i` as read.
pub open spec fn entry_size(m: Seq<TldMetadata>, i: int) -> u16 {
    if 0 <= i < m.len() { m[i].size } else { 0 }
}

/// Whether the NUL-terminated `name` equals the entry's name within its 62
/// bytes (as `strncmp(entry, name, 62) == 0`), comparing from byte `k`.
/// Byte `k` of a name given as a string: past the bytes given, a name
/// reads as NUL.
pub open spec fn name_byte(name: Seq<u8>, k: int) -> u8 {
    if 0 <= k < name.len() { name[k] } else { 0 }
}

pub open spec fn names_eq_from(e: Seq<u8>, name: Seq<u8>, k: int) -> bool
    decreases TLD_NAME_LEN - k,
{
    if k >= TLD_NAME_LEN {
        true
    } else if e[k] != name_byte(name, k) {
        false
    } else if e[k] == 0 {
        true
    } else {
        names_eq_from(e, name, k + 1)
    }
}

pub open spec fn name_matches(e: Seq<u8>, name: Seq<u8>) -> bool {
    names_eq_from(e, name, 0)
}

/// Space the entries before `i` take in the data page.
pub open spec fn offset_before(m: Seq<TldMetadata>, i: int) -> int
    decreases i,
{
    if i <= 0 {
        0
    } else {
        offset_before(m, i - 1) + spec_round_up(entry_size(m, i - 1) as i32, 8)
    }
}

/// The number of entries searched.
pub open spec fn search_bound(cnt: u16) -> int {
    if cnt < TLD_MAX_DATA_CNT { cnt as int } else { TLD_MAX_DATA_CNT as int }
}

/// The first entry from `i` on (below the bound) whose name matches.
pub open spec fn first_match(m: Seq<TldMetadata>, name: Seq<u8>, i: int, bound: int) -> Option<int>
    decreases bound - i,
{
    if i >= bound {
        None
    } else if name_matches(entry_name(m, i), name) {
        Some(i)
    } else {
        first_match(m, name, i + 1, bound)
    }
}

/// The offset of the value named `name`, searched from entry `i_start`;
/// else the negated count.  0 without data or metadata.
pub open spec fn spec_fetch_key(v: TldMapValue, name: Seq<u8>, i_start: i32) -> i32 {
    match (v.data, v.meta) {
        (Some(_d), Some(mt)) => {
            let m = mt.metadata@;
            match first_match(m, name, if i_start < 0 { 0 } else { i_start as int }, search_bound(mt.cnt)) {
                Some(i) => (v.start + offset_before(m, i)) as i32,
                None => (-(mt.cnt as int)) as i32,
            }
        },
        _ => 0,
    }
}

/// Whether the entry's name is `name` (see [`name_matches`]).
pub fn tld_name_eq(e: &[u8; 62], name: &[u8]) -> (r: bool)
    ensures
        r == name_matches(e@, name@),
{
    let mut k: usize = 0;
    while k < TLD_NAME_LEN
        invariant
            k <= TLD_NAME_LEN,
            names_eq_from(e@, name@, 0) == names_eq_from(e@, name@, k as int),
        decreases TLD_NAME_LEN - k,
    {
        let c: u8 = if k < name.len() { name[k] } else { 0 };
        if e[k] != c {
            return false;
        }
        if e[k] == 0 {
            return true;
        }
        k += 1;
    }
    true
}

fn read_entry(m: &Vec<TldMetadata>, i: usize) -> (r: TldMetadata)
    ensures
        r.name@ == entry_name(m@, i as int),
        r.size == entry_size(m@, i as int),
{
    if i < m.len() {
        m[i]
    } else {
        let r = TldMetadata { name: [0u8; 62], size: 0 };
        assert(r.name@ =~= Seq::new(62, |_j: int| 0u8));
        r
    }
}

/// Finds the offset of the value named `name`, searching the table from
/// entry `i_start` (see [`spec_fetch_key`]).
pub fn tld_fetch_key(v: &TldMapValue, name: &[u8], i_start: i32) -> (r: i32)
    ensures
        r == spec_fetch_key(*v, name@, i_start),
{
    let mt = match (&v.data, &v.meta) {
        (Some(_d), Some(mt)) => mt,
        _ => {
            return 0;
        },
    };
    let start = v.start as i32;
    let cnt = mt.cnt as i32;
    let ghost m = mt.metadata@;
    let ghost bound = search_bound(mt.cnt);
    let ghost lo: int = if i_start < 0 { 0 } else { i_start as int };
    let mut off: i32 = 0;
    let mut i: i32 = 0;
    while i < cnt && i < TLD_MAX_DATA_CNT
        invariant
            0 <= i <= bound,
            bound == search_bound(mt.cnt),
            cnt == mt.cnt,
            m == mt.metadata@,
            start == v.start,
            off == offset_before(m, i as int),
            0 <= off <= i * 0x10008,
            lo == (if i_start < 0 { 0 } else { i_start as int }),
            v.meta == Some(*mt),
            v.data is Some,
            first_match(m, name@, lo, bound) == first_match(m, name@, if i < lo { lo } else { i as int }, bound),
        decreases cnt - i,
    {
        let e = read_entry(&mt.metadata, i as usize);
        if i >= i_start {
            if tld_name_eq(&e.name, name) {
                return start + off;
            }
        }
        assert(8i32 & 7i32 == 0) by (bit_vector);
        let step = tld_round_up(e.size as i32, 8);
        off = off + step;
        i += 1;
    }
    -cnt
}

/// The offset of a value in the data page (`None` for none) and the new
/// cached key: a positive key is an offset; else it is the negated count
/// of entries searched, and the search goes on from there.
pub open spec fn spec_get_data(v: TldMapValue, key: i16, name: Seq<u8>, size: i32) -> (Option<i32>, i16) {
    match v.data {
        None => (None, key),
        Some(_d) => {
            let off = key as i32;
            if off > 0 {
                (if off < PAGE_SIZE - size { Some(off) } else { None }, key)
            } else {
                let cnt = -off;
                match v.meta {
                    Some(mt) => if cnt < mt.cnt as i32 {
                        let off2 = spec_fetch_key(v, name, cnt as i32);
                        (if off2 < PAGE_SIZE - size && off2 > 0 { Some(off2) } else { None }, off2 as i16)
                    } else {
                        (None, key)
                    },
                    None => (None, key),
                }
            }
        },
    }
}

/// Finds the value named `name` of `size` bytes, through the cached key.
pub fn tld_get_data(v: &TldMapValue, key: &mut i16, name: &[u8], size: i32) -> (r: Option<i32>)
    requires
        0 <= size <= PAGE_SIZE,
    ensures
        (r, *final(key)) == spec_get_data(*v, *old(key), name@, size),
{
    if v.data.is_none() {
        return None;
    }
    let off = *key as i32;
    if off > 0 {
        if off < PAGE_SIZE - size {
            return Some(off);
        }
        return None;
    }
    let cnt = -off;
    match &v.meta {
        Some(mt) => {
            if cnt < mt.cnt as i32 {
                let off2 = tld_fetch_key(v, name, cnt);
                *key = off2 as i16;
                if off2 < PAGE_SIZE - size && off2 > 0 {
                    return Some(off2);
                }
            }
            None
        },
        None => None,
    }
}

/// Whether the task has storage: the data storage must exist, and the key
/// storage is created within ten tries (`key_map_tries` holds whether each
/// try succeeds).  Returns 0, -ENODATA or -ENOMEM, and the tries made.
pub fn tld_object_init(data_map: bool, key_map_tries: &[bool; 10]) -> (r: (i32, usize))
    ensures
        !data_map ==> r.0 == -ENODATA && r.1 == 0,
        data_map ==> (r.0 == 0 <==> exists|i: int| 0 <= i < 10 && key_map_tries@[i]),
        data_map && r.0 != 0 ==> r.0 == -ENOMEM && r.1 == 10,
        data_map && r.0 == 0 ==> 1 <= r.1 <= 10 && key_map_tries@[r.1 - 1] && forall|j: int| 0 <= j < r.1 - 1 ==> !key_map_tries@[j],
{
    if !data_map {
        return (-ENODATA, 0);
    }
    let mut i: usize = 0;
    while i < TLD_KEY_MAP_CREATE_RETRY
        invariant
            i <= 10,
            data_map,
            forall|j: int| 0 <= j < i ==> !key_map_tries@[j],
        decreases 10 - i,
    {
        if key_map_tries[i] {
            return (0, i + 1);
        }
        i += 1;
    }
    (-ENOMEM, 10)
}

/// The values the program reads.
#[derive(Clone, Copy)]
pub struct TldValues {
    pub test_value0: i32,
    pub test_value1: i32,
    pub test_value2: test_tld_struct,
}

/// `text` followed by zeros up to the length of a name.
pub open spec fn padded(text: Seq<u8>) -> Seq<u8> {
    text + Seq::new((TLD_NAME_LEN - text.len()) as nat, |_i: int| 0u8)
}

/// "value" followed by `suffix`, as a name.
pub open spec fn value_name(suffix: Seq<u8>) -> Seq<u8> {
    padded(seq![118u8, 97u8, 108u8, 117u8, 101u8] + suffix)
}

/// Builds the name "value" + `suffix`, padded with zeros.
pub fn make_value_name(suffix: &[u8]) -> (r: Vec<u8>)
    requires
        suffix@.len() <= 20,
    ensures
        r@ == value_name(suffix@),
{
    let mut v: Vec<u8> = Vec::new();
    v.push(118);
    v.push(97);
    v.push(108);
    v.push(117);
    v.push(101);
    let mut i: usize = 0;
    while i < suffix.len()
        invariant
            i <= suffix@.len() <= 20,
            v@ == seq![118u8, 97u8, 108u8, 117u8, 101u8] + suffix@.take(i as int),
        decreases suffix@.len() - i,
    {
        v.push(suffix[i]);
        i += 1;
        assert(v@ =~= seq![118u8, 97u8, 108u8, 117u8, 101u8] + suffix@.take(i as int));
    }
    assert(suffix@.take(i as int) =~= suffix@);
    let ghost t = v@;
    while v.len() < TLD_NAME_LEN
        invariant
            t.len() <= v@.len() <= TLD_NAME_LEN,
            v@ == t + Seq::new((v@.len() - t.len()) as nat, |_i: int| 0u8),
        decreases TLD_NAME_LEN - v@.len(),
    {
        v.push(0);
        assert(v@ =~= t + Seq::new((v@.len() - t.len()) as nat, |_i: int| 0u8));
    }
    assert(v@ =~= value_name(suffix@));
    v
}

/// The little-endian i32 at `off` of the data page (unchanged `old` where
/// it cannot be read).
pub open spec fn read_i32(d: Seq<u8>, off: int, old: i32) -> i32 {
    if 0 <= off && off + 4 <= d.len() {
        (d[off] + d[off + 1] * 0x100 + d[off + 2] * 0x10000 + d[off + 3] * 0x1000000) as i32
    } else {
        old
    }
}

/// The little-endian u64 at `off`.
pub open spec fn read_u64(d: Seq<u8>, off: int) -> u64 {
    (d[off] + d[off + 1] * 0x100 + d[off + 2] * 0x10000 + d[off + 3] * 0x1000000 + d[off + 4] * 0x1_0000_0000
        + d[off + 5] * 0x100_0000_0000 + d[off + 6] * 0x1_0000_0000_0000 + d[off + 7] * 0x100_0000_0000_0000) as u64
}

pub open spec fn read_struct(d: Seq<u8>, off: int, old: test_tld_struct) -> test_tld_struct {
    if 0 <= off && off + 32 <= d.len() {
        test_tld_struct { a: read_u64(d, off), b: read_u64(d, off + 8), c: read_u64(d, off + 16), d: read_u64(d, off + 24) }
    } else {
        old
    }
}

fn get_i32(d: &Vec<u8>, off: i32, old: i32) -> (r: i32)
    ensures
        r == read_i32(d@, off as int, old),
{
    let n = d.len();
    if off >= 0 && (off as usize) <= n && n - (off as usize) >= 4 {
        let o = off as usize;
        ((d[o] as u32) + (d[o + 1] as u32) * 0x100 + (d[o + 2] as u32) * 0x10000 + (d[o + 3] as u32) * 0x1000000) as i32
    } else {
        old
    }
}

fn get_u64(d: &Vec<u8>, o: usize) -> (r: u64)
    requires
        o + 8 <= d@.len(),
    ensures
        r == read_u64(d@, o as int),
{
    let _n = d.len();
    (d[o] as u64) + (d[o + 1] as u64) * 0x100 + (d[o + 2] as u64) * 0x10000 + (d[o + 3] as u64) * 0x1000000 + (d[o
        + 4] as u64) * 0x1_0000_0000 + (d[o + 5] as u64) * 0x100_0000_0000 + (d[o + 6] as u64) * 0x1_0000_0000_0000
        + (d[o + 7] as u64) * 0x100_0000_0000_0000
}

fn get_struct(d: &Vec<u8>, off: i32, old: test_tld_struct) -> (r: test_tld_struct)
    ensures
        r == read_struct(d@, off as int, old),
{
    let n = d.len();
    if off >= 0 && (off as usize) <= n && n - (off as usize) >= 32 {
        let o = off as usize;
        test_tld_struct { a: get_u64(d, o), b: get_u64(d, o + 8), c: get_u64(d, o + 16), d: get_u64(d, o + 24) }
    } else {
        old
    }
}

/// The value of an `i32` read at `off` of the data page (`old` where there
/// is no data page or it cannot be read there).
pub open spec fn data_i32(v: TldMapValue, off: i32, old: i32) -> i32 {
    match v.data {
        Some(d) => read_i32(d@, off as int, old),
        None => old,
    }
}

/// The value of the 32-byte struct read at `off` of the data page.
pub open spec fn data_struct(v: TldMapValue, off: i32, old: test_tld_struct) -> test_tld_struct {
    match v.data {
        Some(d) => read_struct(d@, off as int, old),
        None => old,
    }
}

/// The names of the four values the program looks for.
pub open spec fn name_value0() -> Seq<u8> { value_name(seq![48u8]) }
pub open spec fn name_value1() -> Seq<u8> { value_name(seq![49u8]) }
pub open spec fn name_value2() -> Seq<u8> { value_name(seq![50u8]) }
pub open spec fn name_not_exist() -> Seq<u8> {
    value_name(seq![95u8, 110u8, 111u8, 116u8, 95u8, 101u8, 120u8, 105u8, 115u8, 116u8])
}

/// One run of the program: its result, the cached keys and the values
/// read.  Without storage it returns 1; it then looks up the three
/// published values in turn (4, 4 and 32 bytes), reading each one it finds
/// and returning 2, 3 or 4 at the first it cannot find; a fourth value must
/// not be found (else 5); 0 when all is as expected.  Each lookup updates
/// its own key.
pub open spec fn spec_task_main(data_map: bool, tries: Seq<bool>, v: TldMapValue, k: TldKeys, x: TldValues) -> (i32, TldKeys, TldValues) {
    if !data_map || !(exists|i: int| 0 <= i < 10 && tries[i]) {
        (1, k, x)
    } else {
        let (o0, k0) = spec_get_data(v, k.value0, name_value0(), 4);
        let ka = TldKeys { value0: k0, ..k };
        match o0 {
            None => (2, ka, x),
            Some(off0) => {
                let xa = TldValues { test_value0: data_i32(v, off0, x.test_value0), ..x };
                let (o1, k1) = spec_get_data(v, k.value1, name_value1(), 4);
                let kb = TldKeys { value1: k1, ..ka };
                match o1 {
                    None => (3, kb, xa),
                    Some(off1) => {
                        let xb = TldValues { test_value1: data_i32(v, off1, x.test_value1), ..xa };
                        let (o2, k2) = spec_get_data(v, k.value2, name_value2(), 32);
                        let kc = TldKeys { value2: k2, ..kb };
                        match o2 {
                            None => (4, kc, xb),
                            Some(off2) => {
                                let xc = TldValues { test_value2: data_struct(v, off2, x.test_value2), ..xb };
                                let (o3, k3) = spec_get_data(v, k.value_not_exist, name_not_exist(), 4);
                                let kd = TldKeys { value_not_exist: k3, ..kc };
                                (if o3 is Some { 5i32 } else { 0i32 }, kd, xc)
                            },
                        }
                    },
                }
            },
        }
    }
}

/// The program (see [`spec_task_main`]).
pub fn task_main(data_map: bool, key_map_tries: &[bool; 10], v: &TldMapValue, keys: &mut TldKeys, vals: &mut TldValues) -> (r: i32)
    ensures
        (r, *final(keys), *final(vals)) == spec_task_main(data_map, key_map_tries@, *v, *old(keys), *old(vals)),
{
    let (init, _tries) = tld_object_init(data_map, key_map_tries);
    if init != 0 {
        return 1;
    }
    let s0: [u8; 1] = [48u8];
    let s1: [u8; 1] = [49u8];
    let s2: [u8; 1] = [50u8];
    let s3: [u8; 10] = [95u8, 110u8, 111u8, 116u8, 95u8, 101u8, 120u8, 105u8, 115u8, 116u8];
    assert(s0@ =~= seq![48u8]);
    assert(s1@ =~= seq![49u8]);
    assert(s2@ =~= seq![50u8]);
    assert(s3@ =~= seq![95u8, 110u8, 111u8, 116u8, 95u8, 101u8, 120u8, 105u8, 115u8, 116u8]);
    let n0 = make_value_name(&s0);
    let p0 = tld_get_data(v, &mut keys.value0, n0.as_slice(), 4);
    match p0 {
        Some(off) => {
            match &v.data {
                Some(d) => {
                    vals.test_value0 = get_i32(d, off, vals.test_value0);
                },
                None => {},
            }
        },
        None => {
            return 2;
        },
    }
    let n1 = make_value_name(&s1);
    let p1 = tld_get_data(v, &mut keys.value1, n1.as_slice(), 4);
    match p1 {
        Some(off) => {
            match &v.data {
                Some(d) => {
                    vals.test_value1 = get_i32(d, off, vals.test_value1);
                },
                None => {},
            }
        },
        None => {
            return 3;
        },
    }
    let n2 = make_value_name(&s2);
    let p2 = tld_get_data(v, &mut keys.value2, n2.as_slice(), 32);
    match p2 {
        Some(off) => {
            match &v.data {
                Some(d) => {
                    vals.test_value2 = get_struct(d, off, vals.test_value2);
                },
                None => {},
            }
        },
        None => {
            return 4;
        },
    }
    let n3 = make_value_name(&s3);
    let p3 = tld_get_data(v, &mut keys.value_not_exist, n3.as_slice(), 4);
    if p3.is_some() {
        return 5;
    }
    0
}

/// Each entry's value starts 8-byte aligned, and the next one starts
/// after it.
pub proof fn lemma_offset_step(m: Seq<TldMetadata>, j: int)
    requires
        0 <= j,
    ensures
        offset_before(m, j) % 8 == 0,
        offset_before(m, j + 1) >= offset_before(m, j) + entry_size(m, j),
        offset_before(m, j + 1) >= offset_before(m, j),
    decreases j,
{
    if j > 0 {
        lemma_offset_step(m, j - 1);
    }
    let x = entry_size(m, j) as i32;
    let a: i32 = (x - 1) as i32;
    assert((((a | 7i32) + 1) >= x) && (((a | 7i32) + 1) % 8 == 0) && ((a | 7i32) + 1) < 0x20000) by (bit_vector)
        requires
            a == x - 1,
            0 <= x <= 0xffff,
    ;
    assert(spec_round_up(x, 8) == (a | 7i32) + 1);
    assert(offset_before(m, j + 1) == offset_before(m, j) + spec_round_up(x, 8));
    if j > 0 {
        let y = entry_size(m, j - 1) as i32;
        let b: i32 = (y - 1) as i32;
        assert(((b | 7i32) + 1) % 8 == 0 && ((b | 7i32) + 1) < 0x20000) by (bit_vector)
            requires
                b == y - 1,
                0 <= y <= 0xffff,
        ;
        assert(spec_round_up(y, 8) == (b | 7i32) + 1);
    }
}

proof fn lemma_first_match(m: Seq<TldMetadata>, name: Seq<u8>, i: int, bound: int)
    ensures
        first_match(m, name, i, bound) matches Some(j) ==> i <= j < bound && name_matches(entry_name(m, j), name)
            && forall|l: int| i <= l < j ==> !name_matches(#[trigger] entry_name(m, l), name),
        first_match(m, name, i, bound) is None ==> forall|l: int| i <= l < bound ==> !name_matches(
            #[trigger] entry_name(m, l),
            name,
        ),
    decreases bound - i,
{
    if i < bound {
        lemma_first_match(m, name, i + 1, bound);
    }
}

/// Lookup law: with storage, the offset found for `name` (searching from
/// entry `i_start`, or 0 if it is negative, up to the count or 63) is the
/// first offset plus the rounded-up sizes of all entries before the first
/// entry that matches; with no match it is the negated count.
pub proof fn lemma_fetch_key_closed_form(v: TldMapValue, name: Seq<u8>, i_start: i32)
    requires
        v.data is Some,
        v.meta is Some,
    ensures
        ({
            let mt = v.meta.unwrap();
            let m = mt.metadata@;
            let lo: int = if i_start < 0 { 0 } else { i_start as int };
            let bound = search_bound(mt.cnt);
            &&& (exists|i: int| lo <= i < bound && #[trigger] name_matches(entry_name(m, i), name)) ==> exists|i: int|
                lo <= i < bound && name_matches(entry_name(m, i), name)
                && (forall|l: int| lo <= l < i ==> !name_matches(#[trigger] entry_name(m, l), name))
                && spec_fetch_key(v, name, i_start) == (v.start + offset_before(m, i)) as i32
            &&& !(exists|i: int| lo <= i < bound && #[trigger] name_matches(entry_name(m, i), name))
                ==> spec_fetch_key(v, name, i_start) == (-(mt.cnt as int)) as i32
        }),
{
    let mt = v.meta.unwrap();
    let m = mt.metadata@;
    let lo: int = if i_start < 0 { 0 } else { i_start as int };
    let bound = search_bound(mt.cnt);
    lemma_first_match(m, name, lo, bound);
    match first_match(m, name, lo, bound) {
        Some(j) => {
            assert(lo <= j < bound && name_matches(entry_name(m, j), name));
        },
        None => {},
    }
}

/// Result law of the program: 1 exactly when there is no storage; then,
/// in turn, 2, 3 or 4 exactly when the first, second or third value is not
/// found; 5 when all three are found and so is the value that must not
/// exist; 0 otherwise, and then the three values have been read.
pub proof fn lemma_task_main_result(data_map: bool, tries: Seq<bool>, v: TldMapValue, k: TldKeys, x: TldValues)
    ensures
        ({
            let (r, _k2, x2) = spec_task_main(data_map, tries, v, k, x);
            let init_ok = data_map && (exists|i: int| 0 <= i < 10 && tries[i]);
            let o0 = spec_get_data(v, k.value0, name_value0(), 4).0;
            let o1 = spec_get_data(v, k.value1, name_value1(), 4).0;
            let o2 = spec_get_data(v, k.value2, name_value2(), 32).0;
            let o3 = spec_get_data(v, k.value_not_exist, name_not_exist(), 4).0;
            &&& (r == 1) <==> !init_ok
            &&& (r == 2) <==> (init_ok && o0 is None)
            &&& (r == 3) <==> (init_ok && o0 is Some && o1 is None)
            &&& (r == 4) <==> (init_ok && o0 is Some && o1 is Some && o2 is None)
            &&& (r == 5) <==> (init_ok && o0 is Some && o1 is Some && o2 is Some && o3 is Some)
            &&& (r == 0) <==> (init_ok && o0 is Some && o1 is Some && o2 is Some && o3 is None)
            &&& r == 0 ==> x2 == (TldValues {
                test_value0: data_i32(v, o0.unwrap(), x.test_value0),
                test_value1: data_i32(v, o1.unwrap(), x.test_value1),
                test_value2: data_struct(v, o2.unwrap(), x.test_value2),
            })
        }),
{
}

/// Layout law: the value of an entry lies after the values of all entries
/// before it, each rounded up to 8 bytes, so values never overlap, and each
/// starts 8-byte aligned.
pub proof fn lemma_offsets_grow(m: Seq<TldMetadata>, i: int, j: int)
    requires
        0 <= i < j,
    ensures
        offset_before(m, j) >= offset_before(m, i) + entry_size(m, i),
        offset_before(m, j) % 8 == 0,
    decreases j - i,
{
    lemma_offset_step(m, i);
    lemma_offset_step(m, j);
    if j > i + 1 {
        lemma_offsets_grow(m, i + 1, j);
        lemma_offset_step(m, i + 1);
    }
}

} // verus!
