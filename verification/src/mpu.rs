use vstd::prelude::*;
use vstd::arithmetic::power2::{pow2, lemma2_to64};
use crate::boot_image::{image_is_bootable, reset_address, APP_BASE, APP_END, SRAM_START, SRAM_END};

verus! {

/// MPU register block base address (Cortex-M4 TRM 4.5).
pub const MPU_BASE: u32 = 0xE000_ED90;

/// Control register.
pub const MPU_CTRL: u32 = MPU_BASE + 0x04;
/// Region number register.
pub const MPU_RNR: u32 = MPU_BASE + 0x08;
/// Region base address register.
pub const MPU_RBAR: u32 = MPU_BASE + 0x0C;
/// Region attribute and size register.
pub const MPU_RASR: u32 = MPU_BASE + 0x10;

/// MPU_CTRL bit 0: enable the MPU.
pub const CTRL_ENABLE: u32 = 0x1;
/// MPU_CTRL bit 2: privileged code falls back to the default memory map.
pub const CTRL_PRIVDEFENA: u32 = 0x4;

/// MPU_RASR bit 0: enable the region.
pub const RASR_ENABLE: u32 = 0x1;
/// MPU_RASR bit 28: execute-never.
pub const RASR_XN: u32 = 0x1000_0000;

/// Access permission field [26:24] = 0b000: no access.
pub const AP_NO_ACCESS: u32 = 0x0000_0000;
/// Access permission field [26:24] = 0b011: read/write, privileged and unprivileged.
pub const AP_FULL: u32 = 0x0300_0000;
/// Access permission field [26:24] = 0b110: read-only, privileged and unprivileged.
pub const AP_RO: u32 = 0x0600_0000;

/// Memory type bits [17:16], TEX=0: C=1 B=0 (bit 17), normal cacheable memory.
pub const MEM_NORMAL_CACHED: u32 = 0x0002_0000;
/// Memory type bits [17:16], TEX=0: C=0 B=1 (bit 16), device memory.
pub const MEM_DEVICE: u32 = 0x0001_0000;

/// SIZE field of a 256 B region (`size_field(8)`).
pub const SIZE_256B: u32 = 14;
/// SIZE field of a 128 KB region (`size_field(17)`), covering the 96 KB of SRAM.
pub const SIZE_128KB: u32 = 32;
/// SIZE field of a 512 KB region (`size_field(19)`), the flash.
pub const SIZE_512KB: u32 = 36;
/// SIZE field of a 512 MB region (`size_field(29)`), the peripheral space.
pub const SIZE_512MB: u32 = 56;

/// One write of a value into a memory-mapped register.
#[derive(Debug, PartialEq, Eq, Structural, Clone, Copy)]
pub struct RegisterWrite {
    pub addr: u32,
    pub value: u32,
}

/// The settings of one MPU region, as `configure_region` takes them.
#[derive(Debug, PartialEq, Eq, Structural, Clone, Copy)]
pub struct MpuRegion {
    /// Region number; a higher number wins where regions overlap.
    pub number: u32,
    /// Base address, naturally aligned to the region's size.
    pub base: u32,
    /// SIZE field value in place (bits [5:1]), as `size_field` gives it.
    pub size: u32,
    /// Access permission bits in place (one of the `AP_*` values).
    pub ap: u32,
    /// `RASR_XN` or 0.
    pub xn: u32,
    /// Memory type bits in place (one of the `MEM_*` values).
    pub mem: u32,
}

/// The SIZE field for a region of `2^size_exp` bytes: the field holds
/// `size_exp - 1` in bits [5:1], and the region is `2^(SIZE+1)` bytes.
pub open spec fn size_field_value(size_exp: u32) -> u32 {
    ((2 * (size_exp - 1)) % 0x1_0000_0000) as u32
}

/// SIZE field [5:1] of the region attribute register: region size is
/// `2^(SIZE+1)` bytes, so a region of `2^size_exp` bytes stores `size_exp - 1`.
pub fn size_field(size_exp: u32) -> (r: u32)
    requires
        size_exp >= 1,
    ensures
        r == size_field_value(size_exp),
{
    let e: u32 = size_exp - 1;
    assert(e << 1 == ((2 * e) % 0x1_0000_0000) as u32) by (bit_vector);
    e << 1
}

/// The region attribute and size register value of a region.
pub open spec fn rasr_value(size: u32, ap: u32, xn: u32, mem: u32) -> u32 {
    xn | ap | mem | size | RASR_ENABLE
}

/// The three register writes that set up one region: select it, write its
/// base address, then its attributes with the region enabled.
pub open spec fn region_writes(region: u32, base: u32, size: u32, ap: u32, xn: u32, mem: u32) -> Seq<
    RegisterWrite,
> {
    seq![
        RegisterWrite { addr: MPU_RNR, value: region },
        RegisterWrite { addr: MPU_RBAR, value: base },
        RegisterWrite { addr: MPU_RASR, value: rasr_value(size, ap, xn, mem) },
    ]
}

/// Select region `region`, write its base address and attributes.
///
/// `base` must be naturally aligned to the region size.
/// `size` is one of the SIZE_* constants (SIZE field value, not bytes).
/// `ap` is one of the AP_* constants (access permission bits in place).
/// `xn` is either `RASR_XN` or `0`.
/// `mem` is one of the MEM_* constants.
pub fn configure_region(region: u32, base: u32, size: u32, ap: u32, xn: u32, mem: u32) -> (r: [RegisterWrite; 3])
    ensures
        r@ == region_writes(region, base, size, ap, xn, mem),
{
    let writes = [
        RegisterWrite { addr: MPU_RNR, value: region },
        RegisterWrite { addr: MPU_RBAR, value: base },
        RegisterWrite { addr: MPU_RASR, value: xn | ap | mem | size | RASR_ENABLE },
    ];
    assert(writes@ =~= region_writes(region, base, size, ap, xn, mem));
    writes
}

/// The settings of a region, as a region value.
pub open spec fn region(number: u32, base: u32, size: u32, ap: u32, xn: u32, mem: u32) -> MpuRegion {
    MpuRegion { number, base, size, ap, xn, mem }
}

/// Region 0: flash (0x0800_0000, 512 KB), read-only and executable.
pub open spec fn flash_region() -> MpuRegion {
    region(0, 0x0800_0000, SIZE_512KB, AP_RO, 0, MEM_NORMAL_CACHED)
}

/// Region 1: SRAM (0x2000_0000, 128 KB rounded up from 96 KB), full access,
/// execute-never.
pub open spec fn sram_region() -> MpuRegion {
    region(1, 0x2000_0000, SIZE_128KB, AP_FULL, RASR_XN, MEM_NORMAL_CACHED)
}

/// Region 2: peripheral space (0x4000_0000, 512 MB), device memory,
/// execute-never.
pub open spec fn peripheral_region() -> MpuRegion {
    region(2, 0x4000_0000, SIZE_512MB, AP_FULL, RASR_XN, MEM_DEVICE)
}

/// Region 3: stack overflow guard (0x2000_4000, 256 B), no access,
/// execute-never.
pub open spec fn stack_guard_region() -> MpuRegion {
    region(3, 0x2000_4000, SIZE_256B, AP_NO_ACCESS, RASR_XN, MEM_NORMAL_CACHED)
}

/// The four regions that `init_writes` programs, in order.
pub open spec fn planned_regions() -> Seq<MpuRegion> {
    seq![flash_region(), sram_region(), peripheral_region(), stack_guard_region()]
}

/// The register writes that program one region.
pub open spec fn writes_for(r: MpuRegion) -> Seq<RegisterWrite> {
    region_writes(r.number, r.base, r.size, r.ap, r.xn, r.mem)
}

/// The write that turns the MPU off.
pub open spec fn mpu_off() -> RegisterWrite {
    RegisterWrite { addr: MPU_CTRL, value: 0 }
}

/// The write that turns the MPU on, with the default map for privileged code.
pub open spec fn mpu_on() -> RegisterWrite {
    RegisterWrite { addr: MPU_CTRL, value: CTRL_ENABLE | CTRL_PRIVDEFENA }
}

/// The whole MPU set-up: disable the MPU, program the four regions in order,
/// enable it again.
pub open spec fn init_plan() -> Seq<RegisterWrite> {
    seq![mpu_off()] + writes_for(flash_region()) + writes_for(sram_region()) + writes_for(
        peripheral_region(),
    ) + writes_for(stack_guard_region()) + seq![mpu_on()]
}

/// The register writes that configure the four MPU regions and enable the
/// MPU; they are to be performed in order, before any task is spawned, and
/// followed by a DSB and an ISB.
///
/// Region priority: higher region number wins on overlap.
/// - Region 0: Flash       — read-only, executable
/// - Region 1: SRAM        — read/write, no execute (XN)
/// - Region 2: Peripherals — device memory, no execute
/// - Region 3: Stack guard — no access; stack overflow → MemFault
pub fn init_writes() -> (r: [RegisterWrite; 14])
    ensures
        r@ == init_plan(),
{
    // The MPU must be disabled before any region is changed.
    let off = RegisterWrite { addr: MPU_CTRL, value: 0 };
    let flash = configure_region(0, 0x0800_0000, SIZE_512KB, AP_RO, 0, MEM_NORMAL_CACHED);
    let sram = configure_region(1, 0x2000_0000, SIZE_128KB, AP_FULL, RASR_XN, MEM_NORMAL_CACHED);
    let periph = configure_region(2, 0x4000_0000, SIZE_512MB, AP_FULL, RASR_XN, MEM_DEVICE);
    let guard = configure_region(3, 0x2000_4000, SIZE_256B, AP_NO_ACCESS, RASR_XN, MEM_NORMAL_CACHED);
    let on = RegisterWrite { addr: MPU_CTRL, value: CTRL_ENABLE | CTRL_PRIVDEFENA };
    let writes = [
        off,
        flash[0],
        flash[1],
        flash[2],
        sram[0],
        sram[1],
        sram[2],
        periph[0],
        periph[1],
        periph[2],
        guard[0],
        guard[1],
        guard[2],
        on,
    ];
    assert(writes@ =~= init_plan());
    writes
}

/// The number of bytes a region covers: `2^(SIZE+1)` for the SIZE field in
/// bits [5:1] of `size`.
pub open spec fn region_bytes(size: u32) -> nat {
    pow2((size / 2 + 1) as nat)
}

/// The region covers `addr`.
pub open spec fn covers(r: MpuRegion, addr: int) -> bool {
    r.base <= addr < r.base + region_bytes(r.size)
}

/// The MPU is off while regions are written: the plan starts by disabling it,
/// ends by enabling it (with the default map for privileged code), and no
/// other write touches the control register.
pub proof fn lemma_mpu_off_while_regions_change()
    ensures
        init_plan().len() == 14,
        init_plan()[0] == mpu_off(),
        init_plan()[13] == mpu_on(),
        mpu_on().value == 5,
        forall|i: int| 0 < i < 13 ==> #[trigger] init_plan()[i].addr != MPU_CTRL,
{
    assert(init_plan().len() == 14);
    assert(0x1u32 | 0x4u32 == 5u32) by (bit_vector);
}

/// Each region is programmed, in region number order, by selecting it,
/// writing its base, then writing its attributes with the region enable bit
/// set.
pub proof fn lemma_each_region_selected_then_programmed()
    ensures
        init_plan().subrange(1, 4) == writes_for(planned_regions()[0]),
        init_plan().subrange(4, 7) == writes_for(planned_regions()[1]),
        init_plan().subrange(7, 10) == writes_for(planned_regions()[2]),
        init_plan().subrange(10, 13) == writes_for(planned_regions()[3]),
        forall|k: int| 0 <= k < 4 ==> (#[trigger] planned_regions()[k]).number == k,
        forall|k: int|
            0 <= k < 4 ==> {
                let r = #[trigger] planned_regions()[k];
                rasr_value(r.size, r.ap, r.xn, r.mem) & RASR_ENABLE == RASR_ENABLE
            },
{
    assert(init_plan().subrange(1, 4) =~= writes_for(planned_regions()[0]));
    assert(init_plan().subrange(4, 7) =~= writes_for(planned_regions()[1]));
    assert(init_plan().subrange(7, 10) =~= writes_for(planned_regions()[2]));
    assert(init_plan().subrange(10, 13) =~= writes_for(planned_regions()[3]));
    assert forall|k: int| 0 <= k < 4 implies {
        let r = #[trigger] planned_regions()[k];
        rasr_value(r.size, r.ap, r.xn, r.mem) & RASR_ENABLE == RASR_ENABLE
    } by {
        let r = planned_regions()[k];
        let v = r.xn | r.ap | r.mem | r.size;
        assert((v | 1u32) & 1u32 == 1u32) by (bit_vector);
    }
}

/// Every planned region's base is naturally aligned to its size, as the
/// MPU requires.
pub proof fn lemma_regions_naturally_aligned()
    ensures
        forall|k: int|
            0 <= k < 4 ==> (#[trigger] planned_regions()[k]).base as int % (region_bytes(
                planned_regions()[k].size,
            ) as int) == 0,
{
    lemma2_to64();
    assert(region_bytes(SIZE_512KB) == 0x80000);
    assert(region_bytes(SIZE_128KB) == 0x20000);
    assert(region_bytes(SIZE_512MB) == 0x2000_0000);
    assert(region_bytes(SIZE_256B) == 0x100);
    assert forall|k: int| 0 <= k < 4 implies (#[trigger] planned_regions()[k]).base as int % (
    region_bytes(planned_regions()[k].size) as int) == 0 by {
        if k == 0 {
            assert(planned_regions()[k] == flash_region());
            assert(0x0800_0000int % 0x80000int == 0);
        } else if k == 1 {
            assert(planned_regions()[k] == sram_region());
            assert(0x2000_0000int % 0x20000int == 0);
        } else if k == 2 {
            assert(planned_regions()[k] == peripheral_region());
            assert(0x4000_0000int % 0x2000_0000int == 0);
        } else {
            assert(planned_regions()[k] == stack_guard_region());
            assert(0x2000_4000int % 0x100int == 0);
        }
    }
}

/// The memory map the regions enforce: application flash is covered by the
/// read-only, executable flash region; all of SRAM by the execute-never SRAM
/// region; the stack guard lies inside SRAM, has no access, and outranks the
/// SRAM region where they overlap.
pub proof fn lemma_memory_map()
    ensures
        forall|a: int| APP_BASE <= a < APP_END ==> covers(flash_region(), a),
        flash_region().ap == AP_RO && flash_region().xn == 0,
        forall|a: int| SRAM_START <= a < SRAM_END ==> covers(sram_region(), a),
        sram_region().xn == RASR_XN,
        forall|a: int| covers(stack_guard_region(), a) ==> SRAM_START <= a < SRAM_END,
        stack_guard_region().ap == AP_NO_ACCESS,
        stack_guard_region().number > sram_region().number,
        peripheral_region().mem == MEM_DEVICE && peripheral_region().xn == RASR_XN,
{
    lemma2_to64();
}

/// A bootable application image starts executing inside the read-only,
/// executable flash region, with its stack pointer at most at the top of the
/// SRAM region.
pub proof fn lemma_bootable_image_runs_from_flash(sp: u32, reset: u32)
    requires
        image_is_bootable(sp, reset),
    ensures
        covers(flash_region(), reset_address(reset) as int),
        flash_region().xn == 0,
        sram_region().base < sp <= sram_region().base + region_bytes(sram_region().size),
{
    lemma2_to64();
}

/// Reading the fields back out of a region attribute value gives what
/// `configure_region` was handed, provided each argument lies in its own
/// field; the region enable bit is always set.
pub proof fn lemma_rasr_fields_round_trip(size: u32, ap: u32, xn: u32, mem: u32)
    requires
        size & !0x3Eu32 == 0,
        ap & !0x0700_0000u32 == 0,
        xn & !RASR_XN == 0,
        mem & !0x0003_0000u32 == 0,
    ensures
        rasr_value(size, ap, xn, mem) & RASR_ENABLE == RASR_ENABLE,
        rasr_value(size, ap, xn, mem) & 0x3Eu32 == size,
        rasr_value(size, ap, xn, mem) & 0x0700_0000u32 == ap,
        rasr_value(size, ap, xn, mem) & RASR_XN == xn,
        rasr_value(size, ap, xn, mem) & 0x0003_0000u32 == mem,
{
    assert(((xn | ap | mem | size | 1u32) & 1u32 == 1u32) && ((xn | ap | mem | size | 1u32)
        & 0x3Eu32 == size) && ((xn | ap | mem | size | 1u32) & 0x0700_0000u32 == ap) && ((xn | ap
        | mem | size | 1u32) & 0x1000_0000u32 == xn) && ((xn | ap | mem | size | 1u32)
        & 0x0003_0000u32 == mem)) by (bit_vector)
        requires
            size & !0x3Eu32 == 0,
            ap & !0x0700_0000u32 == 0,
            xn & !0x1000_0000u32 == 0,
            mem & !0x0003_0000u32 == 0,
    ;
}

/// The SIZE field of a region of `2^size_exp` bytes, for the sizes the field
/// can hold, lies in bits [5:1] and gives the region back `2^size_exp` bytes.
pub proof fn lemma_size_field_round_trip(size_exp: u32)
    requires
        1 <= size_exp <= 32,
    ensures
        size_field_value(size_exp) & !0x3Eu32 == 0,
        region_bytes(size_field_value(size_exp)) == pow2(size_exp as nat),
{
    let s = size_field_value(size_exp);
    assert(s == 2 * (size_exp - 1));
    let e: u32 = (size_exp - 1) as u32;
    assert(e < 32 ==> ((2 * e) as u32) & !0x3Eu32 == 0) by (bit_vector);
}

/// The SIZE constants are the fields of the sizes their names give.
pub proof fn lemma_size_constants()
    ensures
        SIZE_256B == size_field_value(8),
        SIZE_128KB == size_field_value(17),
        SIZE_512KB == size_field_value(19),
        SIZE_512MB == size_field_value(29),
{
}

} // verus!
