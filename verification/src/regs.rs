//! Register identities.  A register is a small integer id: a family base
//! plus the hardware register number, so the id of an extended register
//! (REX/VEX/EVEX high bits) is plain arithmetic on the base.

use vstd::prelude::*;

verus! {

/// No register (also the "no segment override" marker).
pub const REG_NONE: u32 = 0;

/// Segment register `es`.
pub const REG_ES: u32 = 1;
/// Segment register `cs`.
pub const REG_CS: u32 = 2;
/// Segment register `ss`.
pub const REG_SS: u32 = 3;
/// Segment register `ds`.
pub const REG_DS: u32 = 4;
/// Segment register `fs`.
pub const REG_FS: u32 = 5;
/// Segment register `gs`.
pub const REG_GS: u32 = 6;

/// First 16-bit general-purpose register (`ax`); `ax..di, r8w..r15w` are
/// `REG_AX + 0 ..= REG_AX + 15`.
pub const REG_AX: u32 = 16;
/// 16-bit `bx`.
pub const REG_BX: u32 = REG_AX + 3;
/// 16-bit `sp`.
pub const REG_SP: u32 = REG_AX + 4;
/// 16-bit `bp`.
pub const REG_BP: u32 = REG_AX + 5;
/// 16-bit `si`.
pub const REG_SI: u32 = REG_AX + 6;
/// 16-bit `di`.
pub const REG_DI: u32 = REG_AX + 7;

/// First 32-bit general-purpose register (`eax`).
pub const REG_EAX: u32 = 48;
/// 32-bit `esp`.
pub const REG_ESP: u32 = REG_EAX + 4;
/// 32-bit `ebp`.
pub const REG_EBP: u32 = REG_EAX + 5;
/// 32-bit `esi`.
pub const REG_ESI: u32 = REG_EAX + 6;
/// 32-bit `edi`.
pub const REG_EDI: u32 = REG_EAX + 7;

/// First 64-bit general-purpose register (`rax`).
pub const REG_RAX: u32 = 80;
/// 64-bit `rbx`.
pub const REG_RBX: u32 = REG_RAX + 3;
/// 64-bit `rsp`.
pub const REG_RSP: u32 = REG_RAX + 4;
/// 64-bit `rbp`.
pub const REG_RBP: u32 = REG_RAX + 5;
/// 64-bit `rsi`.
pub const REG_RSI: u32 = REG_RAX + 6;
/// 64-bit `rdi`.
pub const REG_RDI: u32 = REG_RAX + 7;

/// First 128-bit vector register (`xmm0`); 32 ids.
pub const REG_XMM0: u32 = 128;
/// First 256-bit vector register (`ymm0`); 32 ids.
pub const REG_YMM0: u32 = 160;

/// Instruction pointer, used as the base of RIP-relative memory operands.
pub const REG_RIP: u32 = 224;
/// 32-bit instruction pointer (EIP-relative addressing).
pub const REG_EIP: u32 = 225;

/// The general-purpose register `idx` of width `osize` bits.
pub open spec fn gpr_spec(osize: u32, idx: u32) -> u32 {
    if osize == 16 {
        (REG_AX + idx) as u32
    } else if osize == 32 {
        (REG_EAX + idx) as u32
    } else {
        (REG_RAX + idx) as u32
    }
}

/// Returns the id of general-purpose register `idx` of width `osize` bits.
#[verifier::when_used_as_spec(gpr_spec)]
pub fn gpr(osize: u32, idx: u32) -> (r: u32)
    requires
        idx < 16,
    ensures
        r == gpr_spec(osize, idx),
{
    if osize == 16 {
        REG_AX + idx
    } else if osize == 32 {
        REG_EAX + idx
    } else {
        REG_RAX + idx
    }
}

/// The vector register `idx`: `xmm` when `ll` is 0, `ymm` when `ll` is 1.
pub open spec fn vec_reg_spec(ll: u8, idx: u32) -> u32 {
    if ll == 0 {
        (REG_XMM0 + idx) as u32
    } else {
        (REG_YMM0 + idx) as u32
    }
}

/// Returns the id of vector register `idx` for vector-length field `ll`.
#[verifier::when_used_as_spec(vec_reg_spec)]
pub fn vec_reg(ll: u8, idx: u32) -> (r: u32)
    requires
        idx < 32,
    ensures
        r == vec_reg_spec(ll, idx),
{
    if ll == 0 {
        REG_XMM0 + idx
    } else {
        REG_YMM0 + idx
    }
}

} // verus!
