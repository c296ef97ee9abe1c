use vstd::prelude::*;

verus! {

/// First byte of application flash: the application's vector table.
pub const APP_BASE: u32 = 0x0800_8000;

/// One past the last byte of application flash.
pub const APP_END: u32 = 0x0808_0000;

/// Lowest SRAM address of the STM32F401RE (96 KB of SRAM).
pub const SRAM_START: u32 = 0x2000_0000;

/// One past the highest SRAM address; the initial stack pointer may equal it.
pub const SRAM_END: u32 = 0x2001_8000;

/// The reset vector with its Thumb bit (bit 0) cleared.
pub open spec fn reset_address(reset: u32) -> u32 {
    reset & !1u32
}

/// An application image is bootable when its initial stack pointer lies in
/// SRAM (above its start, at most its end) and its reset vector, Thumb bit
/// cleared, points into application flash.
pub open spec fn image_is_bootable(sp: u32, reset: u32) -> bool {
    &&& SRAM_START < sp <= SRAM_END
    &&& APP_BASE <= reset_address(reset) < APP_END
}

/// Sanity-check the application's vector table (its first two words: the
/// initial stack pointer and the reset vector) before jumping to it.
///
/// A freshly erased sector reads as `0xFFFF_FFFF`; that image is refused.
pub fn is_valid(sp: u32, reset: u32) -> (r: bool)
    ensures
        r == image_is_bootable(sp, reset),
{
    let sp_ok = sp > SRAM_START && sp <= SRAM_END;
    let reset_addr = reset & !1u32;
    let reset_ok = reset_addr >= APP_BASE && reset_addr < APP_END;
    sp_ok && reset_ok
}

/// The Thumb bit of the reset vector never changes whether an image is
/// bootable: a vector and the same vector with bit 0 set are judged alike.
pub proof fn lemma_thumb_bit_ignored(sp: u32, reset: u32)
    ensures
        image_is_bootable(sp, reset) == image_is_bootable(sp, reset | 1u32),
{
    assert(reset & !1u32 == (reset | 1u32) & !1u32) by (bit_vector);
}

/// Clearing the Thumb bit moves the address down by at most one byte:
/// it is the reset vector rounded down to an even address.
pub proof fn lemma_reset_address_is_even_floor(reset: u32)
    ensures
        reset_address(reset) == reset - reset % 2,
{
    assert(reset & !1u32 == reset - reset % 2) by (bit_vector);
}

/// The bootloader jumps only into application flash, never into its own
/// sectors, and only with a stack pointer in SRAM: an image is bootable
/// exactly when its stack pointer lies in (SRAM_START, SRAM_END] and its
/// reset vector, rounded down to an even address, lies in
/// [APP_BASE, APP_END).
pub proof fn lemma_bootable_exactly(sp: u32, reset: u32)
    ensures
        image_is_bootable(sp, reset) <==> (0x2000_0000 < sp <= 0x2001_8000 && 0x0800_8000 <= reset
            - reset % 2 < 0x0808_0000),
        image_is_bootable(sp, reset) ==> 0x0800_8000 <= (reset & !1u32) < 0x0808_0000,
        reset - reset % 2 < 0x0800_8000 ==> !image_is_bootable(sp, reset),
{
    assert(reset & !1u32 == reset - reset % 2) by (bit_vector);
}

} // verus!
