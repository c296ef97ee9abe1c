use vstd::prelude::*;
use vstd::arithmetic::power2::lemma2_to64;
use crate::health::{CANARY_ADDRESS, RAM_TEST_BASE, RAM_TEST_SIZE};
use crate::mpu::{
    init_plan, mpu_off, mpu_on, planned_regions, rasr_value, writes_for, flash_region, sram_region,
    peripheral_region, stack_guard_region, MpuRegion, RegisterWrite, MPU_CTRL, MPU_RASR, MPU_RBAR,
    MPU_RNR, RASR_XN, region_bytes,
};

verus! {

/// The programmable state of the Cortex-M4 MPU: the control register, the
/// region number register, and the base address and attribute registers of
/// its eight regions.
#[verifier::ext_equal]
pub struct MpuState {
    pub ctrl: u32,
    pub rnr: u32,
    /// Base address (the ADDR field of RBAR) of each region.
    pub rbar: Seq<u32>,
    /// Attribute and size register of each region.
    pub rasr: Seq<u32>,
}

impl MpuState {
    /// The MPU has its eight regions.
    pub open spec fn well_formed(self) -> bool {
        self.rbar.len() == 8 && self.rasr.len() == 8
    }
}

/// RBAR bit 4 (VALID): the write also selects the region given in bits [3:0].
pub open spec fn rbar_valid(value: u32) -> bool {
    value & 0x10u32 != 0
}

/// The effect of one register write on the MPU:
/// - CTRL takes the value;
/// - RNR selects a region;
/// - RBAR stores the base address (bits [31:5]) of the selected region, or,
///   with VALID set, of the region in bits [3:0], which it also selects;
/// - RASR stores the attributes of the selected region;
/// - a write to another address, or to a region number above 7, leaves the
///   MPU as it is.
pub open spec fn apply_write(s: MpuState, w: RegisterWrite) -> MpuState {
    if w.addr == MPU_CTRL {
        MpuState { ctrl: w.value, ..s }
    } else if w.addr == MPU_RNR {
        MpuState { rnr: w.value, ..s }
    } else if w.addr == MPU_RBAR {
        let region = if rbar_valid(w.value) {
            w.value & 0xFu32
        } else {
            s.rnr
        };
        if region < 8 {
            MpuState { rnr: region, rbar: s.rbar.update(region as int, w.value & 0xFFFF_FFE0u32), ..s }
        } else {
            s
        }
    } else if w.addr == MPU_RASR {
        if s.rnr < 8 {
            MpuState { rasr: s.rasr.update(s.rnr as int, w.value), ..s }
        } else {
            s
        }
    } else {
        s
    }
}

/// The MPU after a sequence of register writes, performed in order.
pub open spec fn run_writes(s: MpuState, ws: Seq<RegisterWrite>) -> MpuState
    decreases ws.len(),
{
    if ws.len() == 0 {
        s
    } else {
        run_writes(apply_write(s, ws[0]), ws.drop_first())
    }
}

proof fn lemma_run_append(s: MpuState, a: Seq<RegisterWrite>, b: Seq<RegisterWrite>)
    ensures
        run_writes(s, a + b) == run_writes(run_writes(s, a), b),
    decreases a.len(),
{
    if a.len() == 0 {
        assert(a + b =~= b);
    } else {
        assert((a + b)[0] == a[0]);
        assert((a + b).drop_first() =~= a.drop_first() + b);
        lemma_run_append(apply_write(s, a[0]), a.drop_first(), b);
    }
}

/// The MPU after the three writes that program region `r`: it is selected,
/// and its base and attributes hold the planned values.
pub open spec fn after_region(s: MpuState, r: MpuRegion) -> MpuState {
    MpuState {
        ctrl: s.ctrl,
        rnr: r.number,
        rbar: s.rbar.update(r.number as int, r.base),
        rasr: s.rasr.update(r.number as int, rasr_value(r.size, r.ap, r.xn, r.mem)),
    }
}

proof fn lemma_run_region(s: MpuState, r: MpuRegion)
    requires
        s.well_formed(),
        r.number < 8,
        r.base & 0x10u32 == 0,
        r.base & 0xFFFF_FFE0u32 == r.base,
    ensures
        run_writes(s, writes_for(r)) == after_region(s, r),
{
    let ws = writes_for(r);
    let s1 = apply_write(s, ws[0]);
    let s2 = apply_write(s1, ws[1]);
    let s3 = apply_write(s2, ws[2]);
    assert(ws.drop_first() =~= seq![ws[1], ws[2]]);
    assert(ws.drop_first().drop_first() =~= seq![ws[2]]);
    assert(ws.drop_first().drop_first().drop_first() =~= Seq::<RegisterWrite>::empty());
    assert(run_writes(s3, Seq::<RegisterWrite>::empty()) == s3);
    assert(run_writes(s2, seq![ws[2]]) == s3);
    assert(run_writes(s1, seq![ws[1], ws[2]]) == s3);
    assert(s3 =~= after_region(s, r));
}

proof fn lemma_run_single(s: MpuState, w: RegisterWrite)
    ensures
        run_writes(s, seq![w]) == apply_write(s, w),
{
    assert(seq![w][0] == w);
    assert(seq![w].drop_first() =~= Seq::<RegisterWrite>::empty());
    assert(run_writes(apply_write(s, w), Seq::<RegisterWrite>::empty()) == apply_write(s, w));
}

/// The MPU once `init_writes` has been performed on `s0`: enabled with the
/// default map for privileged code, region 3 selected, regions 0 to 3
/// holding the plan, regions 4 to 7 as they were.
pub open spec fn state_after_init(s0: MpuState) -> MpuState {
    let programmed = after_region(
        after_region(
            after_region(after_region(MpuState { ctrl: 0, ..s0 }, flash_region()), sram_region()),
            peripheral_region(),
        ),
        stack_guard_region(),
    );
    MpuState { ctrl: 5, ..programmed }
}

proof fn lemma_planned_bases()
    ensures
        flash_region().base & 0x10u32 == 0,
        flash_region().base & 0xFFFF_FFE0u32 == flash_region().base,
        sram_region().base & 0x10u32 == 0,
        sram_region().base & 0xFFFF_FFE0u32 == sram_region().base,
        peripheral_region().base & 0x10u32 == 0,
        peripheral_region().base & 0xFFFF_FFE0u32 == peripheral_region().base,
        stack_guard_region().base & 0x10u32 == 0,
        stack_guard_region().base & 0xFFFF_FFE0u32 == stack_guard_region().base,
{
    assert((0x0800_0000u32 & 0x10u32 == 0) && (0x0800_0000u32 & 0xFFFF_FFE0u32 == 0x0800_0000u32)
        && (0x2000_0000u32 & 0x10u32 == 0) && (0x2000_0000u32 & 0xFFFF_FFE0u32 == 0x2000_0000u32)
        && (0x4000_0000u32 & 0x10u32 == 0) && (0x4000_0000u32 & 0xFFFF_FFE0u32 == 0x4000_0000u32)
        && (0x2000_4000u32 & 0x10u32 == 0) && (0x2000_4000u32 & 0xFFFF_FFE0u32
        == 0x2000_4000u32)) by (bit_vector);
}

/// Performing the MPU set-up on any MPU state gives `state_after_init`:
/// it depends on the earlier state only through regions 4 to 7, which it
/// never writes, so performing it twice gives the same state as once.
pub proof fn lemma_init_result(s0: MpuState)
    requires
        s0.well_formed(),
    ensures
        run_writes(s0, init_plan()) == state_after_init(s0),
        state_after_init(s0).well_formed(),
        state_after_init(s0).ctrl == 5,
        forall|k: int| 4 <= k < 8 ==> #[trigger] state_after_init(s0).rbar[k] == s0.rbar[k],
        forall|k: int| 4 <= k < 8 ==> #[trigger] state_after_init(s0).rasr[k] == s0.rasr[k],
        forall|k: int|
            0 <= k < 4 ==> {
                let r = #[trigger] planned_regions()[k];
                &&& state_after_init(s0).rbar[k] == r.base
                &&& state_after_init(s0).rasr[k] == rasr_value(r.size, r.ap, r.xn, r.mem)
            },
        run_writes(run_writes(s0, init_plan()), init_plan()) == run_writes(s0, init_plan()),
{
    lemma_run_init(s0);
    let s1 = state_after_init(s0);
    assert(s1.well_formed());
    assert(state_after_init(s1) =~= s1);
    lemma_run_init(s1);
    assert(planned_regions()[0] == flash_region());
    assert(planned_regions()[1] == sram_region());
    assert(planned_regions()[2] == peripheral_region());
    assert(planned_regions()[3] == stack_guard_region());
}

/// Performing the set-up's writes one region at a time.
proof fn lemma_run_init(s0: MpuState)
    requires
        s0.well_formed(),
    ensures
        run_writes(s0, init_plan()) == state_after_init(s0),
{
    lemma_planned_bases();
    let w0 = writes_for(flash_region());
    let w1 = writes_for(sram_region());
    let w2 = writes_for(peripheral_region());
    let w3 = writes_for(stack_guard_region());
    let p0 = seq![mpu_off()];
    let p1 = p0 + w0;
    let p2 = p1 + w1;
    let p3 = p2 + w2;
    let p4 = p3 + w3;
    assert(init_plan() == p4 + seq![mpu_on()]);
    let t0 = run_writes(s0, p0);
    lemma_run_single(s0, mpu_off());
    lemma_run_append(s0, p0, w0);
    lemma_run_region(t0, flash_region());
    let t1 = after_region(t0, flash_region());
    lemma_run_append(s0, p1, w1);
    lemma_run_region(t1, sram_region());
    let t2 = after_region(t1, sram_region());
    lemma_run_append(s0, p2, w2);
    lemma_run_region(t2, peripheral_region());
    let t3 = after_region(t2, peripheral_region());
    lemma_run_append(s0, p3, w3);
    lemma_run_region(t3, stack_guard_region());
    let t4 = after_region(t3, stack_guard_region());
    lemma_run_append(s0, p4, seq![mpu_on()]);
    lemma_run_single(t4, mpu_on());
    assert(0x1u32 | 0x4u32 == 5u32) by (bit_vector);
    assert(run_writes(s0, init_plan()) =~= state_after_init(s0));
}

/// A kind of memory access.
#[derive(Debug, PartialEq, Eq, Structural, Clone, Copy)]
pub enum Access {
    Read,
    Write,
    Execute,
}

/// Region `k` is enabled and its `2^(SIZE+1)` bytes from its base cover
/// `addr` (the plan disables no subregion).
pub open spec fn region_hits(s: MpuState, k: int, addr: int) -> bool {
    &&& s.rasr[k] & 1u32 == 1u32
    &&& s.rbar[k] <= addr < s.rbar[k] + region_bytes(s.rasr[k] & 0x3Eu32)
}

/// The highest-numbered region below `n` that covers `addr`, or -1: where
/// regions overlap, the higher number wins.
pub open spec fn top_region(s: MpuState, addr: int, n: nat) -> int
    decreases n,
{
    if n == 0 {
        -1
    } else if region_hits(s, n - 1, addr) {
        n - 1
    } else {
        top_region(s, addr, (n - 1) as nat)
    }
}

/// The access permission field AP[26:24] grants reads.
pub open spec fn ap_readable(ap: u32, privileged: bool) -> bool {
    ||| ap == 0x0200_0000u32
    ||| ap == 0x0300_0000u32
    ||| ap == 0x0600_0000u32
    ||| ap == 0x0700_0000u32
    ||| privileged && (ap == 0x0100_0000u32 || ap == 0x0500_0000u32)
}

/// The access permission field AP[26:24] grants writes.
pub open spec fn ap_writable(ap: u32, privileged: bool) -> bool {
    ||| ap == 0x0300_0000u32
    ||| privileged && (ap == 0x0100_0000u32 || ap == 0x0200_0000u32)
}

/// What a region with attributes `rasr` lets through: its access
/// permissions, and no instruction fetch where it is execute-never.
pub open spec fn region_permits(rasr: u32, access: Access, privileged: bool) -> bool {
    let ap = rasr & 0x0700_0000u32;
    match access {
        Access::Read => ap_readable(ap, privileged),
        Access::Write => ap_writable(ap, privileged),
        Access::Execute => ap_readable(ap, privileged) && rasr & RASR_XN == 0,
    }
}

/// The ARMv7-M default memory map: code, SRAM and RAM may be executed;
/// peripheral, device and system space may not.
pub open spec fn default_map_permits(addr: int, access: Access) -> bool {
    access != Access::Execute || addr < 0x4000_0000 || (0x6000_0000 <= addr < 0xA000_0000)
}

/// Whether the MPU in state `s` lets an access of kind `access` to `addr`
/// through. With the MPU off the default map applies; with it on, the
/// winning region decides, and where no region covers the address only
/// privileged code gets through, by the default map, and only with
/// PRIVDEFENA set.
pub open spec fn access_permitted(s: MpuState, addr: int, access: Access, privileged: bool) -> bool {
    if s.ctrl & 1u32 == 0 {
        default_map_permits(addr, access)
    } else {
        let k = top_region(s, addr, 8);
        if k < 0 {
            privileged && s.ctrl & 4u32 != 0 && default_map_permits(addr, access)
        } else {
            region_permits(s.rasr[k], access, privileged)
        }
    }
}

/// The protection the MPU set-up gives, whatever state the MPU was in, as
/// long as regions 4 to 7 were disabled: every access to the stack guard
/// faults; the rest of the SRAM region and the peripheral space can be read
/// and written but not executed; flash can be read and executed but not
/// written; elsewhere only privileged code gets through, by the default map.
pub proof fn lemma_init_access_rights(s0: MpuState, addr: int, access: Access, privileged: bool)
    requires
        s0.well_formed(),
        forall|k: int| 4 <= k < 8 ==> #[trigger] s0.rasr[k] & 1u32 == 0,
        0 <= addr <= u32::MAX,
    ensures
        ({
            let s = run_writes(s0, init_plan());
            &&& 0x2000_4000 <= addr < 0x2000_4100 ==> !access_permitted(s, addr, access, privileged)
            &&& (0x2000_0000 <= addr < 0x2002_0000 && !(0x2000_4000 <= addr < 0x2000_4100))
                ==> access_permitted(s, addr, access, privileged) == (access != Access::Execute)
            &&& 0x4000_0000 <= addr < 0x6000_0000 ==> access_permitted(s, addr, access, privileged)
                == (access != Access::Execute)
            &&& 0x0800_0000 <= addr < 0x0808_0000 ==> access_permitted(s, addr, access, privileged)
                == (access != Access::Write)
            &&& !(0x0800_0000 <= addr < 0x0808_0000) && !(0x2000_0000 <= addr < 0x2002_0000) && !(
            0x4000_0000 <= addr < 0x6000_0000) ==> access_permitted(s, addr, access, privileged)
                == (privileged && default_map_permits(addr, access))
        }),
{
    lemma_init_result(s0);
    lemma2_to64();
    let s = run_writes(s0, init_plan());
    assert(planned_regions()[0] == flash_region());
    assert(planned_regions()[1] == sram_region());
    assert(planned_regions()[2] == peripheral_region());
    assert(planned_regions()[3] == stack_guard_region());
    let r0 = rasr_value(flash_region().size, flash_region().ap, flash_region().xn, flash_region().mem);
    let r1 = rasr_value(sram_region().size, sram_region().ap, sram_region().xn, sram_region().mem);
    let r2 = rasr_value(peripheral_region().size, peripheral_region().ap, peripheral_region().xn,
        peripheral_region().mem);
    let r3 = rasr_value(stack_guard_region().size, stack_guard_region().ap, stack_guard_region().xn,
        stack_guard_region().mem);
    assert(s.rasr[0] == r0);
    assert(s.rasr[1] == r1);
    assert(s.rasr[2] == r2);
    assert(s.rasr[3] == r3);
    assert({
        &&& (0u32 | 0x0600_0000u32 | 0x0002_0000u32 | 36u32 | 1u32) == 0x0602_0025u32
        &&& (0x1000_0000u32 | 0x0300_0000u32 | 0x0002_0000u32 | 32u32 | 1u32) == 0x1302_0021u32
        &&& (0x1000_0000u32 | 0x0300_0000u32 | 0x0001_0000u32 | 56u32 | 1u32) == 0x1301_0039u32
        &&& (0x1000_0000u32 | 0u32 | 0x0002_0000u32 | 14u32 | 1u32) == 0x1002_000Fu32
        &&& 0x0602_0025u32 & 1u32 == 1u32 && 0x0602_0025u32 & 0x3Eu32 == 36u32
        &&& 0x0602_0025u32 & 0x0700_0000u32 == 0x0600_0000u32 && 0x0602_0025u32 & 0x1000_0000u32 == 0
        &&& 0x1302_0021u32 & 1u32 == 1u32 && 0x1302_0021u32 & 0x3Eu32 == 32u32
        &&& 0x1302_0021u32 & 0x0700_0000u32 == 0x0300_0000u32 && 0x1302_0021u32 & 0x1000_0000u32 != 0
        &&& 0x1301_0039u32 & 1u32 == 1u32 && 0x1301_0039u32 & 0x3Eu32 == 56u32
        &&& 0x1301_0039u32 & 0x0700_0000u32 == 0x0300_0000u32 && 0x1301_0039u32 & 0x1000_0000u32 != 0
        &&& 0x1002_000Fu32 & 1u32 == 1u32 && 0x1002_000Fu32 & 0x3Eu32 == 14u32
        &&& 0x1002_000Fu32 & 0x0700_0000u32 == 0u32 && 0x1002_000Fu32 & 0x1000_0000u32 != 0
        &&& 5u32 & 1u32 == 1u32 && 5u32 & 4u32 != 0
    }) by (bit_vector);
    assert(region_bytes(36) == 0x80000);
    assert(region_bytes(32) == 0x20000);
    assert(region_bytes(56) == 0x2000_0000);
    assert(region_bytes(14) == 0x100);
    assert(!region_hits(s, 7, addr));
    assert(!region_hits(s, 6, addr));
    assert(!region_hits(s, 5, addr));
    assert(!region_hits(s, 4, addr));
    reveal_with_fuel(top_region, 9);
}

/// The boot self tests and the MPU set-up: every byte of the RAM test's
/// words lies in the stack guard, so once the MPU is set up the RAM check
/// faults and must run before it; the stack canary lies in SRAM outside the
/// guard, where reads and writes stay allowed.
pub proof fn lemma_self_tests_and_mpu(s0: MpuState, addr: int, access: Access, privileged: bool)
    requires
        s0.well_formed(),
        forall|k: int| 4 <= k < 8 ==> #[trigger] s0.rasr[k] & 1u32 == 0,
    ensures
        RAM_TEST_BASE <= addr < RAM_TEST_BASE + 4 * RAM_TEST_SIZE ==> !access_permitted(
            run_writes(s0, init_plan()),
            addr,
            access,
            privileged,
        ),
        CANARY_ADDRESS <= addr < CANARY_ADDRESS + 4 && access != Access::Execute
            ==> access_permitted(run_writes(s0, init_plan()), addr, access, privileged),
{
    if (RAM_TEST_BASE <= addr < RAM_TEST_BASE + 4 * RAM_TEST_SIZE) || (CANARY_ADDRESS <= addr
        < CANARY_ADDRESS + 4) {
        lemma_init_access_rights(s0, addr, access, privileged);
    }
}

} // verus!
