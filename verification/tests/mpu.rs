use signal_analyser::mpu::{
    configure_region, init_writes, size_field, MpuRegion, RegisterWrite, AP_FULL, AP_NO_ACCESS,
    AP_RO, CTRL_ENABLE, CTRL_PRIVDEFENA, MEM_DEVICE, MEM_NORMAL_CACHED, MPU_CTRL, MPU_RASR,
    MPU_RBAR, MPU_RNR, RASR_XN, SIZE_128KB, SIZE_256B, SIZE_512KB, SIZE_512MB,
};

fn w(addr: u32, value: u32) -> RegisterWrite {
    RegisterWrite { addr, value }
}

#[test]
fn register_addresses() {
    assert_eq!(MPU_CTRL, 0xE000_ED94);
    assert_eq!(MPU_RNR, 0xE000_ED98);
    assert_eq!(MPU_RBAR, 0xE000_ED9C);
    assert_eq!(MPU_RASR, 0xE000_EDA0);
}

#[test]
fn size_field_values() {
    assert_eq!(size_field(8), SIZE_256B);
    assert_eq!(size_field(17), SIZE_128KB);
    assert_eq!(size_field(19), SIZE_512KB);
    assert_eq!(size_field(29), SIZE_512MB);
    assert_eq!(size_field(5), 8);
    assert_eq!(size_field(1), 0);
    assert_eq!(size_field(8), 14);
}

#[test]
fn size_field_decodes_to_region_size() {
    for e in 5u32..=32 {
        let field = size_field(e);
        assert_eq!(field & !0x3E, 0);
        assert_eq!((field >> 1) + 1, e);
    }
}

#[test]
fn configure_region_writes_number_base_and_attributes() {
    let writes = configure_region(1, 0x2000_0000, SIZE_128KB, AP_FULL, RASR_XN, MEM_NORMAL_CACHED);
    assert_eq!(
        writes,
        [
            w(MPU_RNR, 1),
            w(MPU_RBAR, 0x2000_0000),
            w(MPU_RASR, 0x1000_0000 | 0x0300_0000 | 0x0002_0000 | 32 | 1),
        ]
    );
}

#[test]
fn attribute_fields_read_back() {
    let aps = [AP_NO_ACCESS, AP_FULL, AP_RO];
    let mems = [MEM_NORMAL_CACHED, MEM_DEVICE];
    for e in 5u32..=32 {
        for ap in aps {
            for xn in [0, RASR_XN] {
                for mem in mems {
                    let rasr = configure_region(0, 0, size_field(e), ap, xn, mem)[2].value;
                    assert_eq!(rasr & 1, 1);
                    assert_eq!(rasr & 0x3E, size_field(e));
                    assert_eq!(rasr & 0x0700_0000, ap);
                    assert_eq!(rasr & RASR_XN, xn);
                    assert_eq!(rasr & 0x0003_0000, mem);
                }
            }
        }
    }
}

#[test]
fn init_disables_programs_four_regions_then_enables() {
    let writes = init_writes();
    assert_eq!(writes.len(), 14);
    assert_eq!(writes[0], w(MPU_CTRL, 0));
    assert_eq!(writes[13], w(MPU_CTRL, CTRL_ENABLE | CTRL_PRIVDEFENA));
    assert_eq!(writes[13].value, 5);
    assert!(writes[1..13].iter().all(|x| x.addr != MPU_CTRL));
    let regions = [
        MpuRegion { number: 0, base: 0x0800_0000, size: SIZE_512KB, ap: AP_RO, xn: 0, mem: MEM_NORMAL_CACHED },
        MpuRegion { number: 1, base: 0x2000_0000, size: SIZE_128KB, ap: AP_FULL, xn: RASR_XN, mem: MEM_NORMAL_CACHED },
        MpuRegion { number: 2, base: 0x4000_0000, size: SIZE_512MB, ap: AP_FULL, xn: RASR_XN, mem: MEM_DEVICE },
        MpuRegion { number: 3, base: 0x2000_4000, size: SIZE_256B, ap: AP_NO_ACCESS, xn: RASR_XN, mem: MEM_NORMAL_CACHED },
    ];
    for (k, r) in regions.iter().enumerate() {
        let expected = configure_region(r.number, r.base, r.size, r.ap, r.xn, r.mem);
        assert_eq!(&writes[1 + 3 * k..4 + 3 * k], expected.as_slice());
        let bytes = 1u64 << ((r.size >> 1) + 1);
        assert_eq!(r.base as u64 % bytes, 0);
    }
}

#[test]
fn init_exact_values() {
    let writes = init_writes();
    assert_eq!(
        writes,
        [
            w(0xE000_ED94, 0),
            w(0xE000_ED98, 0),
            w(0xE000_ED9C, 0x0800_0000),
            w(0xE000_EDA0, 0x0602_0025),
            w(0xE000_ED98, 1),
            w(0xE000_ED9C, 0x2000_0000),
            w(0xE000_EDA0, 0x1302_0021),
            w(0xE000_ED98, 2),
            w(0xE000_ED9C, 0x4000_0000),
            w(0xE000_EDA0, 0x1301_0039),
            w(0xE000_ED98, 3),
            w(0xE000_ED9C, 0x2000_4000),
            w(0xE000_EDA0, 0x1002_000F),
            w(0xE000_ED94, 5),
        ]
    );
}

#[derive(Clone, PartialEq, Debug)]
struct Mpu {
    ctrl: u32,
    rnr: u32,
    rbar: [u32; 8],
    rasr: [u32; 8],
}

impl Mpu {
    fn apply(&mut self, w: RegisterWrite) {
        if w.addr == MPU_CTRL {
            self.ctrl = w.value;
        } else if w.addr == MPU_RNR {
            self.rnr = w.value;
        } else if w.addr == MPU_RBAR {
            let region = if w.value & 0x10 != 0 { w.value & 0xF } else { self.rnr };
            if region < 8 {
                self.rnr = region;
                self.rbar[region as usize] = w.value & 0xFFFF_FFE0;
            }
        } else if w.addr == MPU_RASR && self.rnr < 8 {
            self.rasr[self.rnr as usize] = w.value;
        }
    }

    fn run_init(&mut self) {
        for w in init_writes() {
            self.apply(w);
        }
    }

    fn allowed(&self, addr: u64, write: bool, exec: bool, privileged: bool) -> bool {
        let default_ok = !exec || addr < 0x4000_0000 || (0x6000_0000..0xA000_0000).contains(&addr);
        if self.ctrl & 1 == 0 {
            return default_ok;
        }
        for k in (0..8).rev() {
            let rasr = self.rasr[k];
            let bytes = 1u64 << (((rasr & 0x3E) >> 1) + 1);
            let base = self.rbar[k] as u64;
            if rasr & 1 == 1 && base <= addr && addr < base + bytes {
                let ap = rasr & 0x0700_0000;
                let readable = matches!(ap, 0x0200_0000 | 0x0300_0000 | 0x0600_0000 | 0x0700_0000)
                    || (privileged && matches!(ap, 0x0100_0000 | 0x0500_0000));
                let writable = ap == 0x0300_0000
                    || (privileged && matches!(ap, 0x0100_0000 | 0x0200_0000));
                return if write {
                    writable
                } else if exec {
                    readable && rasr & RASR_XN == 0
                } else {
                    readable
                };
            }
        }
        privileged && self.ctrl & 4 != 0 && default_ok
    }
}

fn arbitrary_mpu() -> Mpu {
    Mpu {
        ctrl: 0x7,
        rnr: 6,
        rbar: [0x1234_5660, 0xAAAA_0000, 0x2000_0000, 0x0, 0xDEAD_BEE0, 0x1000_0000, 0x3000_0000, 0x5000_0000],
        rasr: [0xFFFF_FFFF, 0x0300_0011, 0x1, 0x0, 0x0600_0022, 0x1000_0010, 0x0300_0030, 0x0],
    }
}

#[test]
fn init_is_idempotent_and_leaves_regions_4_to_7() {
    let s0 = arbitrary_mpu();
    let mut s1 = s0.clone();
    s1.run_init();
    assert_eq!(s1.ctrl, 5);
    assert_eq!(s1.rnr, 3);
    assert_eq!(&s1.rbar[..4], &[0x0800_0000, 0x2000_0000, 0x4000_0000, 0x2000_4000]);
    assert_eq!(&s1.rasr[..4], &[0x0602_0025, 0x1302_0021, 0x1301_0039, 0x1002_000F]);
    assert_eq!(&s1.rbar[4..], &s0.rbar[4..]);
    assert_eq!(&s1.rasr[4..], &s0.rasr[4..]);
    let mut s2 = s1.clone();
    s2.run_init();
    assert_eq!(s2, s1);
}

#[test]
fn init_access_rights() {
    let mut s = arbitrary_mpu();
    s.run_init();
    for p in [false, true] {
        for a in [0x2000_4000u64, 0x2000_4080, 0x2000_40FF] {
            assert!(!s.allowed(a, false, false, p));
            assert!(!s.allowed(a, true, false, p));
            assert!(!s.allowed(a, false, true, p));
        }
        for a in [0x2000_0000u64, 0x2000_1000, 0x2000_4100, 0x2001_FFFF, 0x4000_0000, 0x5FFF_FFFF] {
            assert!(s.allowed(a, false, false, p));
            assert!(s.allowed(a, true, false, p));
            assert!(!s.allowed(a, false, true, p));
        }
        for a in [0x0800_0000u64, 0x0800_8000, 0x0807_FFFF] {
            assert!(s.allowed(a, false, false, p));
            assert!(!s.allowed(a, true, false, p));
            assert!(s.allowed(a, false, true, p));
        }
    }
    // Outside every region: privileged code by the default map only.
    assert!(s.allowed(0x0000_0000, false, true, true));
    assert!(!s.allowed(0x0000_0000, false, false, false));
    assert!(s.allowed(0xE000_ED94, true, false, true));
    assert!(!s.allowed(0xE000_ED94, false, true, true));
}
