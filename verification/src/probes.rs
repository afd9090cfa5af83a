//! User-space probes of the uprobe tests: each records that it ran for the
//! process under test, what arguments it saw, or what a function
//! returned, and some rewrite the probed process's registers.
//!
//! The probe context is the register file (`pt_regs`, 21 64-bit slots);
//! the current process id comes from `bpf_get_current_pid_tgid`, whose
//! upper half is taken as the process id.
use vstd::prelude::*;

verus! {

/// Number of register slots in the probe context.
pub const PT_REGS_SLOTS: usize = 21;
pub const SLOT_R11: usize = 6;
pub const SLOT_R10: usize = 7;
pub const SLOT_R9: usize = 8;
pub const SLOT_R8: usize = 9;
pub const SLOT_AX: usize = 10;
pub const SLOT_CX: usize = 11;
pub const SLOT_DX: usize = 12;
pub const SLOT_SI: usize = 13;
pub const SLOT_DI: usize = 14;
pub const SLOT_IP: usize = 16;

/// The process id in a pid/tgid pair: its upper half, signed.
pub open spec fn spec_current_pid(pid_tgid: u64) -> i32 {
    (pid_tgid >> 32u64) as i32
}

/// The current process id (see [`spec_current_pid`]).
pub fn current_pid(pid_tgid: u64) -> (r: i32)
    ensures
        r == spec_current_pid(pid_tgid),
{
    (pid_tgid >> 32u64) as i32
}

/// What the uprobe test records.
#[derive(Clone, Copy)]
pub struct UprobeGlobals {
    pub my_pid: i32,
    pub test1_result: i32,
    pub test2_result: i32,
    pub test3_result: i32,
    pub test4_result: i32,
    /// The register values the register-changing probe installs.
    pub regs: [u64; 21],
    /// The instruction pointer the other register-changing probe installs.
    pub ip: u64,
}

/// Probe on the unversioned symbol: sets its result for the process
/// under test.
pub fn test1(pid_tgid: u64, g: &mut UprobeGlobals) -> (r: i32)
    ensures
        r == 0,
        *final(g) == if spec_current_pid(pid_tgid) == old(g).my_pid { UprobeGlobals { test1_result: 1, ..*old(g) } } else { *old(g) },
{
    if current_pid(pid_tgid) != g.my_pid {
        return 0;
    }
    g.test1_result = 1;
    0
}

/// Probe on the symbol's first version.
pub fn test2(pid_tgid: u64, g: &mut UprobeGlobals) -> (r: i32)
    ensures
        r == 0,
        *final(g) == if spec_current_pid(pid_tgid) == old(g).my_pid { UprobeGlobals { test2_result: 1, ..*old(g) } } else { *old(g) },
{
    if current_pid(pid_tgid) != g.my_pid {
        return 0;
    }
    g.test2_result = 1;
    0
}

/// Return probe on the symbol's default version: records the return
/// value (the low half of `ax`).
pub fn test3(pid_tgid: u64, ctx: &[u64; 21], g: &mut UprobeGlobals) -> (r: i32)
    ensures
        r == 0,
        *final(g) == if spec_current_pid(pid_tgid) == old(g).my_pid { UprobeGlobals { test3_result: ctx[10] as i32, ..*old(g) } } else { *old(g) },
{
    if current_pid(pid_tgid) != g.my_pid {
        return 0;
    }
    g.test3_result = ctx[SLOT_AX] as i32;
    0
}

/// Probe attached by offset.
pub fn test4(pid_tgid: u64, g: &mut UprobeGlobals) -> (r: i32)
    ensures
        r == 0,
        *final(g) == if spec_current_pid(pid_tgid) == old(g).my_pid { UprobeGlobals { test4_result: 1, ..*old(g) } } else { *old(g) },
{
    if current_pid(pid_tgid) != g.my_pid {
        return 0;
    }
    g.test4_result = 1;
    0
}

/// The argument and scratch registers the register-changing probe
/// rewrites.
pub open spec fn changed_slot(i: int) -> bool {
    i == SLOT_AX || i == SLOT_CX || i == SLOT_DX || i == SLOT_R8 || i == SLOT_R9 || i == SLOT_R10 || i == SLOT_R11
        || i == SLOT_DI || i == SLOT_SI
}

/// For the process under test, the argument and scratch registers
/// (`ax`, `cx`, `dx`, `r8`-`r11`, `di`, `si`) take the recorded values;
/// the others stay.
pub fn test_regs_change(pid_tgid: u64, ctx: &mut [u64; 21], g: &UprobeGlobals) -> (r: i32)
    ensures
        r == 0,
        spec_current_pid(pid_tgid) != g.my_pid ==> *final(ctx) == *old(ctx),
        spec_current_pid(pid_tgid) == g.my_pid ==> forall|i: int| 0 <= i < 21 ==>
            #[trigger] final(ctx)[i] == if changed_slot(i) { g.regs[i] } else { old(ctx)[i] },
{
    if current_pid(pid_tgid) != g.my_pid {
        return 0;
    }
    ctx[SLOT_AX] = g.regs[SLOT_AX];
    ctx[SLOT_CX] = g.regs[SLOT_CX];
    ctx[SLOT_DX] = g.regs[SLOT_DX];
    ctx[SLOT_R8] = g.regs[SLOT_R8];
    ctx[SLOT_R9] = g.regs[SLOT_R9];
    ctx[SLOT_R10] = g.regs[SLOT_R10];
    ctx[SLOT_R11] = g.regs[SLOT_R11];
    ctx[SLOT_DI] = g.regs[SLOT_DI];
    ctx[SLOT_SI] = g.regs[SLOT_SI];
    0
}

/// For the process under test, the instruction pointer takes the
/// recorded value.
pub fn test_regs_change_ip(pid_tgid: u64, ctx: &mut [u64; 21], g: &UprobeGlobals) -> (r: i32)
    ensures
        r == 0,
        spec_current_pid(pid_tgid) != g.my_pid ==> *final(ctx) == *old(ctx),
        spec_current_pid(pid_tgid) == g.my_pid ==> forall|i: int| 0 <= i < 21 ==>
            #[trigger] final(ctx)[i] == if i == SLOT_IP { g.ip } else { old(ctx)[i] },
{
    if current_pid(pid_tgid) != g.my_pid {
        return 0;
    }
    ctx[SLOT_IP] = g.ip;
    0
}

/// What the auto-attach test records.
#[derive(Clone, Copy)]
pub struct AutoattachGlobals {
    pub uprobe_byname_parm1: i32,
    pub uprobe_byname_ran: i32,
    pub uretprobe_byname_rc: i32,
    pub uretprobe_byname_ret: i32,
    pub uretprobe_byname_ran: i32,
    pub uprobe_byname2_parm1: u64,
    pub uprobe_byname2_ran: i32,
    pub uretprobe_byname2_rc: u64,
    pub uretprobe_byname2_ran: i32,
    pub test_pid: i32,
    pub a: [i32; 8],
}

/// The probe that cannot attach by itself: does nothing.
pub fn handle_uprobe_noautoattach() -> (r: i32)
    ensures
        r == 0,
{
    0
}

/// Entry probe by name: records the first argument and the first six
/// arguments (low halves), and that it ran.
pub fn handle_uprobe_byname(ctx: &[u64; 21], g: &mut AutoattachGlobals) -> (r: i32)
    ensures
        r == 0,
        final(g).uprobe_byname_parm1 == ctx[14] as i32,
        final(g).uprobe_byname_ran == 1,
        final(g).a@ == seq![ctx[14] as i32, ctx[13] as i32, ctx[12] as i32, ctx[11] as i32, ctx[9] as i32, ctx[8] as i32,
            old(g).a[6], old(g).a[7]],
        *final(g) == (AutoattachGlobals { uprobe_byname_parm1: final(g).uprobe_byname_parm1, uprobe_byname_ran: 1, a: final(g).a, ..*old(g) }),
{
    let di = ctx[SLOT_DI];
    let si = ctx[SLOT_SI];
    let dx = ctx[SLOT_DX];
    let cx = ctx[SLOT_CX];
    let r8 = ctx[SLOT_R8];
    let r9 = ctx[SLOT_R9];
    g.uprobe_byname_parm1 = di as i32;
    g.uprobe_byname_ran = 1;
    g.a[0] = di as i32;
    g.a[1] = si as i32;
    g.a[2] = dx as i32;
    g.a[3] = cx as i32;
    g.a[4] = r8 as i32;
    g.a[5] = r9 as i32;
    assert(g.a@ =~= seq![ctx[14] as i32, ctx[13] as i32, ctx[12] as i32, ctx[11] as i32, ctx[9] as i32, ctx[8] as i32,
        old(g).a[6], old(g).a[7]]);
    0
}

/// Return probe by name: records the return value (low half of `ax`).
pub fn handle_uretprobe_byname(ctx: &[u64; 21], g: &mut AutoattachGlobals) -> (r: i32)
    ensures
        r == 0,
        *final(g) == (AutoattachGlobals {
            uretprobe_byname_rc: ctx[10] as i32,
            uretprobe_byname_ret: ctx[10] as i32,
            uretprobe_byname_ran: 2,
            ..*old(g)
        }),
{
    let rc = ctx[SLOT_AX] as i32;
    g.uretprobe_byname_rc = rc;
    g.uretprobe_byname_ret = rc;
    g.uretprobe_byname_ran = 2;
    0
}

/// Entry probe on a library function: for the process under test,
/// records the first argument (the path name's address).
pub fn handle_uprobe_byname2(pid_tgid: u64, ctx: &[u64; 21], g: &mut AutoattachGlobals) -> (r: i32)
    ensures
        r == 0,
        *final(g) == if old(g).test_pid == spec_current_pid(pid_tgid) {
            AutoattachGlobals { uprobe_byname2_parm1: ctx[14], uprobe_byname2_ran: 3, ..*old(g) }
        } else {
            *old(g)
        },
{
    let pid = current_pid(pid_tgid);
    if g.test_pid != pid {
        return 0;
    }
    g.uprobe_byname2_parm1 = ctx[SLOT_DI];
    g.uprobe_byname2_ran = 3;
    0
}

/// Return probe on a library function: for the process under test,
/// records the return value.
pub fn handle_uretprobe_byname2(pid_tgid: u64, ctx: &[u64; 21], g: &mut AutoattachGlobals) -> (r: i32)
    ensures
        r == 0,
        *final(g) == if old(g).test_pid == spec_current_pid(pid_tgid) {
            AutoattachGlobals { uretprobe_byname2_rc: ctx[10], uretprobe_byname2_ran: 4, ..*old(g) }
        } else {
            *old(g)
        },
{
    let pid = current_pid(pid_tgid);
    if g.test_pid != pid {
        return 0;
    }
    g.uretprobe_byname2_rc = ctx[SLOT_AX];
    g.uretprobe_byname2_ran = 4;
    0
}

/// The task-registers probe: both copies of the registers (of the task,
/// and of the probe context) must succeed (`read_task_ret`,
/// `read_ctx_ret` are the kernel's answers) before the run is recorded.
pub fn handle_uprobe(read_task_ret: i64, read_ctx_ret: i64, uprobe_res: &mut i32) -> (r: i32)
    ensures
        r == 0,
        *final(uprobe_res) == if read_task_ret == 0 && read_ctx_ret == 0 { 1 } else { *old(uprobe_res) },
{
    if read_task_ret != 0 {
        return 0;
    }
    if read_ctx_ret != 0 {
        return 0;
    }
    *uprobe_res = 1;
    0
}

} // verus!
