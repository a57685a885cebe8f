//! Values written to the control registers at boot: no-execute pages on, and
//! write protection enforced in kernel mode.
use vstd::prelude::*;

verus! {

/// The no-execute enable bit (bit 11) of the IA32_EFER model-specific register.
pub const EFER_NXE: u64 = 0x800;

/// The write-protect bit (bit 16) of CR0.
pub const CR0_WRITE_PROTECT: u64 = 0x10000;

/// `efer` with no-execute pages enabled and every other bit kept.
pub fn with_nxe_bit(efer: u64) -> (r: u64)
    ensures
        r == efer | EFER_NXE,
        r & EFER_NXE == EFER_NXE,
        r & !EFER_NXE == efer & !EFER_NXE,
{
    let r = efer | EFER_NXE;
    assert(r & 0x800u64 == 0x800u64 && r & !0x800u64 == efer & !0x800u64) by (bit_vector)
        requires
            r == efer | 0x800u64,
    ;
    r
}

/// `cr0` with write protection enforced and every other bit kept.
pub fn with_write_protect_bit(cr0: u64) -> (r: u64)
    ensures
        r == cr0 | CR0_WRITE_PROTECT,
        r & CR0_WRITE_PROTECT == CR0_WRITE_PROTECT,
        r & !CR0_WRITE_PROTECT == cr0 & !CR0_WRITE_PROTECT,
{
    let r = cr0 | CR0_WRITE_PROTECT;
    assert(r & 0x10000u64 == 0x10000u64 && r & !0x10000u64 == cr0 & !0x10000u64) by (bit_vector)
        requires
            r == cr0 | 0x10000u64,
    ;
    r
}

} // verus!
