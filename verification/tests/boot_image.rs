use signal_analyser::boot_image::{is_valid, APP_BASE, APP_END, SRAM_END, SRAM_START};

#[test]
fn erased_flash_is_refused() {
    assert!(!is_valid(0xFFFF_FFFF, 0xFFFF_FFFF));
}

#[test]
fn typical_image_is_accepted() {
    assert!(is_valid(0x2001_8000, 0x0800_8195));
}

#[test]
fn stack_pointer_bounds() {
    assert!(!is_valid(SRAM_START, APP_BASE | 1));
    assert!(is_valid(SRAM_START + 4, APP_BASE | 1));
    assert!(is_valid(SRAM_END, APP_BASE | 1));
    assert!(!is_valid(SRAM_END + 4, APP_BASE | 1));
    assert!(!is_valid(0, APP_BASE | 1));
}

#[test]
fn reset_vector_bounds() {
    assert!(is_valid(SRAM_END, APP_BASE));
    assert!(!is_valid(SRAM_END, APP_BASE - 2));
    assert!(!is_valid(SRAM_END, 0x0800_0001));
    assert!(is_valid(SRAM_END, APP_END - 1));
    assert!(!is_valid(SRAM_END, APP_END));
    assert!(!is_valid(SRAM_END, APP_END | 1));
}

#[test]
fn thumb_bit_does_not_matter() {
    for reset in [0u32, 0x0800_7FFE, APP_BASE, 0x0800_9000, APP_END - 2, APP_END, 0xFFFF_FFFE] {
        for sp in [SRAM_START, SRAM_END, 0x2000_8000] {
            assert_eq!(is_valid(sp, reset), is_valid(sp, reset | 1));
        }
    }
}
