//! An LSM hook on the `bpf()` system call that checks a PKCS#7 signature
//! over data a monitored process hands in.
//!
//! The hook's return value must be an errno in `[-4095, 0]`;
//! [`normalize_lsm_ret`] clamps raw helper results into that range.  The
//! helper calls themselves (copying from user memory, key lookups, the
//! signature check) are the kernel's: [`bpf`] takes their answers and gives
//! the calls made, in order, and the hook's return value.
use vstd::prelude::*;

verus! {

pub const MAX_DATA_SIZE: u32 = 1048576;
pub const MAX_SIG_SIZE: u32 = 1024;
/// Size of the buffer copied from user memory: data, its length, the
/// signature and its length.
pub const DATA_STRUCT_SIZE: u32 = 1049608;

pub const EINVAL: i32 = -22;
pub const ENOENT: i32 = -2;
pub const EFAULT: i32 = -14;
/// Lowest errno value a hook may return.
pub const MAX_ERRNO_NEG: i32 = -4095;

pub open spec fn spec_normalize_lsm_ret(ret: i32) -> i32 {
    if ret < MAX_ERRNO_NEG || ret > 0 { EFAULT } else { ret }
}

/// A return value the hook may give: `ret` itself where it is an errno in
/// `[-4095, 0]`, `-EFAULT` otherwise.
pub fn normalize_lsm_ret(ret: i32) -> (r: i32)
    ensures
        r == spec_normalize_lsm_ret(ret),
        MAX_ERRNO_NEG <= r <= 0,
{
    let mut ret = ret;
    if ret < MAX_ERRNO_NEG || ret > 0 {
        ret = EFAULT;
    }
    ret
}

/// The program's settings: the process it watches and the keyring it
/// checks against (a user keyring where the serial is set, else a system
/// keyring).
#[derive(Clone, Copy)]
pub struct Pkcs7Config {
    pub monitored_pid: u32,
    pub user_keyring_serial: i32,
    pub system_keyring_id: u64,
}

/// What the kernel answers to the hook's helper calls.
#[derive(Clone, Copy)]
pub struct Pkcs7Answers {
    /// `bpf_get_current_pid_tgid()`.
    pub pid_tgid: u64,
    /// Whether the map slot for the data was found.
    pub data_slot: bool,
    /// Result of copying the data from user memory.
    pub copy_ret: i64,
    /// The lengths in the copied data.
    pub data_len: u32,
    pub sig_len: u32,
    /// Whether the keyring lookup found a key.
    pub keyring_found: bool,
    /// Result of the signature check.
    pub verify_ret: i32,
}

/// A helper call the hook makes after it has found its data slot.
#[derive(Clone, Copy, PartialEq, Eq, Structural)]
pub enum Pkcs7Call {
    /// `bpf_copy_from_user(slot, size, attr.value)`.
    CopyFromUser { size: u32 },
    /// A dynptr over the first `len` bytes of the data.
    DataDynptr { len: u32 },
    /// A dynptr over the first `len` bytes of the signature.
    SigDynptr { len: u32 },
    LookupUserKey { serial: i32 },
    LookupSystemKey { id: u64 },
    VerifySignature,
    KeyPut,
}

pub open spec fn keyring_call(c: Pkcs7Config) -> Pkcs7Call {
    if c.user_keyring_serial != 0 {
        Pkcs7Call::LookupUserKey { serial: c.user_keyring_serial }
    } else {
        Pkcs7Call::LookupSystemKey { id: c.system_keyring_id }
    }
}

/// One run of the hook: its return value and its calls, in order.
pub open spec fn spec_bpf(c: Pkcs7Config, a: Pkcs7Answers) -> (i32, Seq<Pkcs7Call>) {
    let copy = seq![Pkcs7Call::CopyFromUser { size: DATA_STRUCT_SIZE }];
    if (a.pid_tgid >> 32u64) as u32 != c.monitored_pid || !a.data_slot {
        (0i32, seq![])
    } else if a.copy_ret as i32 != 0 {
        (spec_normalize_lsm_ret(a.copy_ret as i32), copy)
    } else if a.data_len > MAX_DATA_SIZE {
        (EINVAL, copy)
    } else if a.sig_len > MAX_SIG_SIZE {
        (EINVAL, copy.push(Pkcs7Call::DataDynptr { len: a.data_len }))
    } else {
        let prep = copy.push(Pkcs7Call::DataDynptr { len: a.data_len })
            .push(Pkcs7Call::SigDynptr { len: a.sig_len })
            .push(keyring_call(c));
        if !a.keyring_found {
            (ENOENT, prep)
        } else {
            (spec_normalize_lsm_ret(a.verify_ret), prep.push(Pkcs7Call::VerifySignature).push(Pkcs7Call::KeyPut))
        }
    }
}

/// The hook (see [`spec_bpf`]): the return value and the calls made.
pub fn bpf(c: &Pkcs7Config, a: &Pkcs7Answers) -> (r: (i32, Vec<Pkcs7Call>))
    ensures
        (r.0, r.1@) == spec_bpf(*c, *a),
{
    let mut calls: Vec<Pkcs7Call> = Vec::new();
    let pid = (a.pid_tgid >> 32u64) as u32;
    if pid != c.monitored_pid {
        return (0, calls);
    }
    if !a.data_slot {
        return (0, calls);
    }
    calls.push(Pkcs7Call::CopyFromUser { size: DATA_STRUCT_SIZE });
    let ret = a.copy_ret as i32;
    if ret != 0 {
        return (normalize_lsm_ret(ret), calls);
    }
    if a.data_len > MAX_DATA_SIZE {
        return (EINVAL, calls);
    }
    calls.push(Pkcs7Call::DataDynptr { len: a.data_len });
    if a.sig_len > MAX_SIG_SIZE {
        return (EINVAL, calls);
    }
    calls.push(Pkcs7Call::SigDynptr { len: a.sig_len });
    if c.user_keyring_serial != 0 {
        calls.push(Pkcs7Call::LookupUserKey { serial: c.user_keyring_serial });
    } else {
        calls.push(Pkcs7Call::LookupSystemKey { id: c.system_keyring_id });
    }
    if !a.keyring_found {
        return (ENOENT, calls);
    }
    calls.push(Pkcs7Call::VerifySignature);
    calls.push(Pkcs7Call::KeyPut);
    (normalize_lsm_ret(a.verify_ret), calls)
}

/// Every run of the hook returns an errno in `[-4095, 0]`, and a key that
/// was taken is always put back, as the last call.
pub proof fn lemma_hook_result_in_range(c: Pkcs7Config, a: Pkcs7Answers)
    ensures
        MAX_ERRNO_NEG <= spec_bpf(c, a).0 <= 0,
        a.keyring_found && spec_bpf(c, a).1.contains(keyring_call(c)) ==> spec_bpf(c, a).1.last() == Pkcs7Call::KeyPut,
{
    let (r, calls) = spec_bpf(c, a);
    if a.keyring_found && calls.contains(keyring_call(c)) {
        let copy = seq![Pkcs7Call::CopyFromUser { size: DATA_STRUCT_SIZE }];
        if (a.pid_tgid >> 32u64) as u32 != c.monitored_pid || !a.data_slot {
            assert(calls.len() == 0);
        } else if a.copy_ret as i32 != 0 || a.data_len > MAX_DATA_SIZE {
            assert(calls =~= copy);
            let i = choose|i: int| 0 <= i < calls.len() && calls[i] == keyring_call(c);
            assert(calls[i] == copy[0]);
        } else if a.sig_len > MAX_SIG_SIZE {
            let i = choose|i: int| 0 <= i < calls.len() && calls[i] == keyring_call(c);
            assert(calls.len() == 2);
            assert(i == 0 || i == 1);
        }
    }
}

} // verus!
