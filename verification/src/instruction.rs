//! The decoded-instruction record: the single output value of a decode
//! call.  The operand kind of each slot determines which fields are
//! meaningful; fields of unused slots stay at their zero/unset defaults.

use vstd::prelude::*;
use crate::enums::{CodeSize, EncodingKind, OpKind, RoundingControl};
use crate::regs::REG_NONE;

verus! {

/// The opcode identity produced by the descriptor-table lookup.
#[derive(Copy, Clone, Eq, PartialEq, Structural, Debug)]
pub enum Code {
    /// No instruction (the decode failed or the record is fresh).
    INVALID,
    /// `nop` (`90`)
    Nop,
    /// `mov r/m16, r16` (`89 /r`)
    MovRm16R16,
    /// `mov r/m32, r32` (`89 /r`)
    MovRm32R32,
    /// `mov r/m64, r64` (`REX.W 89 /r`)
    MovRm64R64,
    /// `mov r16, r/m16` (`8B /r`)
    MovR16Rm16,
    /// `mov r32, r/m32` (`8B /r`)
    MovR32Rm32,
    /// `mov r64, r/m64` (`REX.W 8B /r`)
    MovR64Rm64,
    /// `mov r16, imm16` (`B8+rw`)
    MovR16Imm16,
    /// `mov r32, imm32` (`B8+rd`)
    MovR32Imm32,
    /// `mov r64, imm64` (`REX.W B8+ro`)
    MovR64Imm64,
    /// `mov r/m16, imm16` (`C7 /0`)
    MovRm16Imm16,
    /// `mov r/m32, imm32` (`C7 /0`)
    MovRm32Imm32,
    /// `mov r/m64, imm32` (`REX.W C7 /0`, immediate sign-extended)
    MovRm64Imm32,
    /// `add r/m16, imm8` (`83 /0`)
    AddRm16Imm8,
    /// `add r/m32, imm8` (`83 /0`)
    AddRm32Imm8,
    /// `add r/m64, imm8` (`REX.W 83 /0`)
    AddRm64Imm8,
    /// `call rel16` (`E8 cw`)
    CallRel16,
    /// `call rel32` in 16/32-bit code (`E8 cd`)
    CallRel32_32,
    /// `call rel32` in 64-bit code (`E8 cd`)
    CallRel32_64,
    /// `jmp rel8` in 16-bit code (`EB cb`)
    JmpRel8_16,
    /// `jmp rel8` in 32-bit code (`EB cb`)
    JmpRel8_32,
    /// `jmp rel8` in 64-bit code (`EB cb`)
    JmpRel8_64,
    /// `call ptr16:16` (`9A cd`)
    CallPtr1616,
    /// `call ptr16:32` (`9A cp`)
    CallPtr1632,
    /// `enter imm16, imm8` (`C8 iw ib`)
    Enter,
    /// `movsb` (`A4`)
    Movsb,
    /// `pop r/m16` (`8F /0`)
    PopRm16,
    /// `pop r/m32` (`8F /0`)
    PopRm32,
    /// `pop r/m64` (`8F /0` in 64-bit code)
    PopRm64,
    /// `lds r16, m16:16` (`C5 /r`, 16/32-bit code only)
    LdsR16M,
    /// `lds r32, m16:32` (`C5 /r`, 16/32-bit code only)
    LdsR32M,
    /// `bound r16, m16&16` (`62 /r`, 16/32-bit code only)
    BoundR16M,
    /// `bound r32, m32&32` (`62 /r`, 16/32-bit code only)
    BoundR32M,
    /// `umov r/m16, r16` (`0F 11 /r`, quirk-gated)
    UmovRm16R16,
    /// `umov r/m32, r32` (`0F 11 /r`, quirk-gated)
    UmovRm32R32,
    /// `cl1invmb` (`0F 0A`, quirk-gated)
    Cl1invmb,
    /// `vmovups xmm, xmm/m128` (`VEX.128.0F 10 /r`)
    VexVmovups128,
    /// `vmovups ymm, ymm/m256` (`VEX.256.0F 10 /r`)
    VexVmovups256,
    /// `vmovups xmm{k}{z}, xmm/m128` (`EVEX.128.0F.W0 10 /r`)
    EvexVmovups128,
    /// `vaddps xmm{k}{z}, xmm, xmm/m128/m32bcst` (`EVEX.128.0F.W0 58 /r`)
    EvexVaddps128,
}

/// A decoded instruction.
#[derive(Copy, Clone, Eq, PartialEq, Structural, Debug)]
pub struct Instruction {
    /// Opcode identity.
    pub code: Code,
    /// The code size the decoder was configured for.
    pub code_size: CodeSize,
    /// The encoding family of the matched form.
    pub encoding: EncodingKind,
    /// Number of bytes consumed; at most 15.
    pub length: u64,
    /// Address of the first byte of the instruction.
    pub ip: u64,
    /// Number of operands (0 to 5).
    pub op_count: u64,
    /// Kind of operand 0.
    pub op0_kind: OpKind,
    /// Kind of operand 1.
    pub op1_kind: OpKind,
    /// Kind of operand 2.
    pub op2_kind: OpKind,
    /// Kind of operand 3.
    pub op3_kind: OpKind,
    /// Kind of operand 4.
    pub op4_kind: OpKind,
    /// Register id of operand 0, when its kind is `Register`.
    pub op0_register: u32,
    /// Register id of operand 1, when its kind is `Register`.
    pub op1_register: u32,
    /// Register id of operand 2, when its kind is `Register`.
    pub op2_register: u32,
    /// Register id of operand 3, when its kind is `Register`.
    pub op3_register: u32,
    /// Register id of operand 4, when its kind is `Register`.
    pub op4_register: u32,
    /// Immediate value; sign-extended kinds hold the extended value
    /// zero-extended into the `u64`.
    pub immediate: u64,
    /// Secondary 8-bit immediate (`enter`-style two-immediate forms).
    pub immediate2: u8,
    /// Absolute target of a near branch operand.
    pub near_branch_target: u64,
    /// Offset part of a far branch operand.
    pub far_branch_target: u32,
    /// Selector part of a far branch operand.
    pub far_branch_selector: u16,
    /// Base register of a memory operand, or `REG_NONE`.
    pub mem_base: u32,
    /// Index register of a memory operand, or `REG_NONE`.
    pub mem_index: u32,
    /// Index scale of a memory operand: 1, 2, 4 or 8.
    pub mem_scale: u32,
    /// Displacement of a memory operand, sign-extended to 64 bits; under
    /// EVEX a disp8 is stored already multiplied by the tuple-type factor.
    pub mem_displ: u64,
    /// Bytes of displacement on the wire: 0, 1, 2 or 4.
    pub mem_displ_size: u32,
    /// Bytes accessed by the memory operand.
    pub mem_size: u32,
    /// Effective segment of the memory operand.
    pub mem_segment: u32,
    /// The segment-override prefix actually present, or `REG_NONE`.
    pub segment_prefix: u32,
    /// EVEX mask register number (0 = none).
    pub op_mask: u32,
    /// EVEX zeroing-masking flag.
    pub zeroing_masking: bool,
    /// EVEX broadcast flag of the memory operand.
    pub broadcast: bool,
    /// Rounding control pseudo-operand.
    pub rounding_control: RoundingControl,
    /// Suppress-all-exceptions pseudo-operand.
    pub suppress_all_exceptions: bool,
    /// A `lock` prefix was present.
    pub has_lock_prefix: bool,
    /// A `rep`/`repe` (`F3`) prefix was present.
    pub has_rep_prefix: bool,
    /// A `repne` (`F2`) prefix was present.
    pub has_repne_prefix: bool,
}

/// The fresh instruction record: everything zero/unset.
pub open spec fn inst_default() -> Instruction {
    Instruction {
        code: Code::INVALID,
        code_size: CodeSize::Unknown,
        encoding: EncodingKind::Legacy,
        length: 0,
        ip: 0,
        op_count: 0,
        op0_kind: OpKind::Register,
        op1_kind: OpKind::Register,
        op2_kind: OpKind::Register,
        op3_kind: OpKind::Register,
        op4_kind: OpKind::Register,
        op0_register: REG_NONE,
        op1_register: REG_NONE,
        op2_register: REG_NONE,
        op3_register: REG_NONE,
        op4_register: REG_NONE,
        immediate: 0,
        immediate2: 0,
        near_branch_target: 0,
        far_branch_target: 0,
        far_branch_selector: 0,
        mem_base: REG_NONE,
        mem_index: REG_NONE,
        mem_scale: 1,
        mem_displ: 0,
        mem_displ_size: 0,
        mem_size: 0,
        mem_segment: REG_NONE,
        segment_prefix: REG_NONE,
        op_mask: 0,
        zeroing_masking: false,
        broadcast: false,
        rounding_control: RoundingControl::NoRounding,
        suppress_all_exceptions: false,
        has_lock_prefix: false,
        has_rep_prefix: false,
        has_repne_prefix: false,
    }
}

impl Instruction {
    /// Returns a fresh record with every field zero/unset.
    pub fn new() -> (r: Instruction)
        ensures
            r == inst_default(),
    {
        Instruction {
            code: Code::INVALID,
            code_size: CodeSize::Unknown,
            encoding: EncodingKind::Legacy,
            length: 0,
            ip: 0,
            op_count: 0,
            op0_kind: OpKind::Register,
            op1_kind: OpKind::Register,
            op2_kind: OpKind::Register,
            op3_kind: OpKind::Register,
            op4_kind: OpKind::Register,
            op0_register: REG_NONE,
            op1_register: REG_NONE,
            op2_register: REG_NONE,
            op3_register: REG_NONE,
            op4_register: REG_NONE,
            immediate: 0,
            immediate2: 0,
            near_branch_target: 0,
            far_branch_target: 0,
            far_branch_selector: 0,
            mem_base: REG_NONE,
            mem_index: REG_NONE,
            mem_scale: 1,
            mem_displ: 0,
            mem_displ_size: 0,
            mem_size: 0,
            mem_segment: REG_NONE,
            segment_prefix: REG_NONE,
            op_mask: 0,
            zeroing_masking: false,
            broadcast: false,
            rounding_control: RoundingControl::NoRounding,
            suppress_all_exceptions: false,
            has_lock_prefix: false,
            has_rep_prefix: false,
            has_repne_prefix: false,
        }
    }
}

impl Default for Instruction {
    /// Same as `Instruction::new`.
    fn default() -> (r: Instruction)
        ensures
            r == inst_default(),
    {
        Instruction::new()
    }
}

} // verus!
