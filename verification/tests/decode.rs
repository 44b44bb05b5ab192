use iced_x86::decoder::Decoder;
use iced_x86::enums::{CodeSize, EncodingKind, OpKind, RoundingControl, VectorLength, MandatoryPrefixByte, TupleType};
use iced_x86::errors::DecodeError;
use iced_x86::instruction::Code;
use iced_x86::options::DecoderOptions;
use iced_x86::regs;

#[test]
fn nop_64bit() {
    let mut d = Decoder::new(64, vec![0x90], 0x1000, DecoderOptions::NONE);
    let i = d.decode().unwrap();
    assert_eq!(i.code, Code::Nop);
    assert_eq!(i.length, 1);
    assert_eq!(i.ip, 0x1000);
    assert_eq!(i.op_count, 0);
    assert_eq!(i.code_size, CodeSize::Code64);
}

#[test]
fn mov_reg_reg_rexw() {
    let mut d = Decoder::new(64, vec![0x48, 0x89, 0xD8], 0, DecoderOptions::NONE);
    let i = d.decode().unwrap();
    assert_eq!(i.code, Code::MovRm64R64);
    assert_eq!(i.length, 3);
    assert_eq!(i.op_count, 2);
    assert_eq!(i.op0_kind, OpKind::Register);
    assert_eq!(i.op0_register, regs::REG_RAX);
    assert_eq!(i.op1_kind, OpKind::Register);
    assert_eq!(i.op1_register, regs::REG_RBX);
}

#[test]
fn mov_reg_imm32_32bit() {
    let mut d = Decoder::new(32, vec![0xB8, 0x01, 0x00, 0x00, 0x00], 0, DecoderOptions::NONE);
    let i = d.decode().unwrap();
    assert_eq!(i.code, Code::MovR32Imm32);
    assert_eq!(i.length, 5);
    assert_eq!(i.op_count, 2);
    assert_eq!(i.op0_kind, OpKind::Register);
    assert_eq!(i.op0_register, regs::REG_EAX);
    assert_eq!(i.op1_kind, OpKind::Immediate32);
    assert_eq!(i.immediate, 1);
}

#[test]
fn truncated_input() {
    let mut d = Decoder::new(32, vec![0xB8, 0x01], 0, DecoderOptions::NONE);
    let f = d.decode().unwrap_err();
    assert_eq!(f.error, DecodeError::TruncatedInput);
    assert!(f.length <= 2);
}

#[test]
fn too_long_prefix_run() {
    let mut d = Decoder::new(32, vec![0x66; 20], 0, DecoderOptions::NONE);
    let f = d.decode().unwrap_err();
    assert_eq!(f.error, DecodeError::InstructionTooLong);
}

#[test]
fn invalid_opcode() {
    let mut d = Decoder::new(64, vec![0x06, 0x90], 0, DecoderOptions::NONE);
    let f = d.decode().unwrap_err();
    assert_eq!(f.error, DecodeError::InvalidInstruction);
}

#[test]
fn quirk_gating_umov() {
    // same bytes: invalid by default, umov with the quirk enabled
    let bytes = vec![0x0F, 0x11, 0xD8];
    let mut d = Decoder::new(32, bytes.clone(), 0, DecoderOptions::NONE);
    let f = d.decode().unwrap_err();
    assert_eq!(f.error, DecodeError::InvalidInstruction);
    let mut d2 = Decoder::new(32, bytes, 0, DecoderOptions::UMOV);
    let i = d2.decode().unwrap();
    assert_eq!(i.code, Code::UmovRm32R32);
    assert_eq!(i.length, 3);
}

#[test]
fn quirk_gating_cl1invmb() {
    let bytes = vec![0x0F, 0x0A];
    let mut d = Decoder::new(32, bytes.clone(), 0, DecoderOptions::NONE);
    assert_eq!(d.decode().unwrap_err().error, DecodeError::InvalidInstruction);
    let mut d2 = Decoder::new(32, bytes, 0, DecoderOptions::CL1INVMB);
    assert_eq!(d2.decode().unwrap().code, Code::Cl1invmb);
}

#[test]
fn ambiguous_escape_c5_32bit() {
    // C5 with a non-11 mod byte: legacy lds r32, m
    let mut d = Decoder::new(32, vec![0xC5, 0x18], 0, DecoderOptions::NONE);
    let i = d.decode().unwrap();
    assert_eq!(i.code, Code::LdsR32M);
    assert_eq!(i.op0_kind, OpKind::Register);
    assert_eq!(i.op1_kind, OpKind::Memory);
    // C5 with a 11-pattern byte: VEX2 vmovups
    let mut d2 = Decoder::new(32, vec![0xC5, 0xF8, 0x10, 0xC1], 0, DecoderOptions::NONE);
    let v = d2.decode().unwrap();
    assert_eq!(v.code, Code::VexVmovups128);
    assert_eq!(v.encoding, EncodingKind::VEX);
    assert_eq!(v.op0_register, regs::REG_XMM0);
    assert_eq!(v.op1_register, regs::REG_XMM0 + 1);
}

#[test]
fn ambiguous_escape_62_32bit() {
    // 62 with a non-11 byte: legacy bound r32, m
    let mut d = Decoder::new(32, vec![0x62, 0x08], 0, DecoderOptions::NONE);
    let i = d.decode().unwrap();
    assert_eq!(i.code, Code::BoundR32M);
    // 62 with 11-pattern payload: EVEX vmovups
    let mut d2 = Decoder::new(
        32,
        vec![0x62, 0xF1, 0x7C, 0x08, 0x10, 0xC1],
        0,
        DecoderOptions::NONE,
    );
    let v = d2.decode().unwrap();
    assert_eq!(v.code, Code::EvexVmovups128);
    assert_eq!(v.encoding, EncodingKind::EVEX);
}

#[test]
fn evex_disp8_scaling_full_mem_128() {
    // EVEX.128 vmovups xmm0, [eax + disp8*16]: tuple Full_Mem_128, N=16
    let mut d = Decoder::new(
        32,
        vec![0x62, 0xF1, 0x7C, 0x08, 0x10, 0x40, 0x02],
        0,
        DecoderOptions::NONE,
    );
    let i = d.decode().unwrap();
    assert_eq!(i.code, Code::EvexVmovups128);
    assert_eq!(i.mem_displ, 32); // 2 * 16
    assert_eq!(i.mem_displ_size, 1);
}

#[test]
fn evex_disp8_scaling_full_128_broadcast() {
    // EVEX.128.W0 vaddps with broadcast: tuple Full_128, b=1, W=0 -> N=4
    let mut d = Decoder::new(
        32,
        vec![0x62, 0xF1, 0x7C, 0x18, 0x58, 0x40, 0x03],
        0,
        DecoderOptions::NONE,
    );
    let i = d.decode().unwrap();
    assert_eq!(i.code, Code::EvexVaddps128);
    assert!(i.broadcast);
    assert_eq!(i.mem_displ, 12); // 3 * 4
    // without broadcast: N = 16
    let mut d2 = Decoder::new(
        32,
        vec![0x62, 0xF1, 0x7C, 0x08, 0x58, 0x40, 0xFF],
        0,
        DecoderOptions::NONE,
    );
    let j = d2.decode().unwrap();
    assert!(!j.broadcast);
    assert_eq!(j.mem_displ, (-16i64) as u64); // -1 * 16, two's complement
}

#[test]
fn rel_branch_target() {
    // E8 rel32 in 64-bit: target = ip + len + disp
    let mut d = Decoder::new(64, vec![0xE8, 0x10, 0x00, 0x00, 0x00], 0x4000, DecoderOptions::NONE);
    let i = d.decode().unwrap();
    assert_eq!(i.code, Code::CallRel32_64);
    assert_eq!(i.op0_kind, OpKind::NearBranch64);
    assert_eq!(i.near_branch_target, 0x4015);
}

#[test]
fn jmp_rel8_negative() {
    let mut d = Decoder::new(64, vec![0xEB, 0xFE], 0x2000, DecoderOptions::NONE);
    let i = d.decode().unwrap();
    assert_eq!(i.code, Code::JmpRel8_64);
    assert_eq!(i.near_branch_target, 0x2000);
}

#[test]
fn sib_and_disp32() {
    // 8B 44 88 44332211: mov eax, [eax + ecx*4 + disp32]
    let mut d = Decoder::new(
        32,
        vec![0x8B, 0x84, 0x88, 0x11, 0x22, 0x33, 0x44],
        0,
        DecoderOptions::NONE,
    );
    let i = d.decode().unwrap();
    assert_eq!(i.code, Code::MovR32Rm32);
    assert_eq!(i.op1_kind, OpKind::Memory);
    assert_eq!(i.mem_base, regs::REG_EAX);
    assert_eq!(i.mem_index, regs::REG_EAX + 1);
    assert_eq!(i.mem_scale, 4);
    assert_eq!(i.mem_displ, 0x44332211);
    assert_eq!(i.mem_displ_size, 4);
}

#[test]
fn rip_relative() {
    let mut d = Decoder::new(64, vec![0x8B, 0x05, 0x10, 0x00, 0x00, 0x00], 0, DecoderOptions::NONE);
    let i = d.decode().unwrap();
    assert_eq!(i.mem_base, regs::REG_RIP);
    assert_eq!(i.mem_displ, 0x10);
}

#[test]
fn segment_override_and_default() {
    // 64 8B 00: fs override
    let mut d = Decoder::new(32, vec![0x64, 0x8B, 0x00], 0, DecoderOptions::NONE);
    let i = d.decode().unwrap();
    assert_eq!(i.segment_prefix, regs::REG_FS);
    assert_eq!(i.mem_segment, regs::REG_FS);
    // 8B 45 00: [ebp+disp8] defaults to ss
    let mut d2 = Decoder::new(32, vec![0x8B, 0x45, 0x00], 0, DecoderOptions::NONE);
    let j = d2.decode().unwrap();
    assert_eq!(j.segment_prefix, regs::REG_NONE);
    assert_eq!(j.mem_segment, regs::REG_SS);
}

#[test]
fn enter_two_immediates() {
    let mut d = Decoder::new(32, vec![0xC8, 0x34, 0x12, 0x05], 0, DecoderOptions::NONE);
    let i = d.decode().unwrap();
    assert_eq!(i.code, Code::Enter);
    assert_eq!(i.op0_kind, OpKind::Immediate16);
    assert_eq!(i.immediate, 0x1234);
    assert_eq!(i.op1_kind, OpKind::Immediate8_2nd);
    assert_eq!(i.immediate2, 5);
}

#[test]
fn add_imm8_sign_extended() {
    // 48 83 C0 FF: add rax, -1 (imm8 sign-extended to 64)
    let mut d = Decoder::new(64, vec![0x48, 0x83, 0xC0, 0xFF], 0, DecoderOptions::NONE);
    let i = d.decode().unwrap();
    assert_eq!(i.code, Code::AddRm64Imm8);
    assert_eq!(i.op1_kind, OpKind::Immediate8to64);
    assert_eq!(i.immediate, u64::MAX);
}

#[test]
fn movs_string_op_kinds() {
    let mut d = Decoder::new(32, vec![0xA4], 0, DecoderOptions::NONE);
    let i = d.decode().unwrap();
    assert_eq!(i.code, Code::Movsb);
    assert_eq!(i.op0_kind, OpKind::MemoryESEDI);
    assert_eq!(i.op1_kind, OpKind::MemorySegESI);
}

#[test]
fn far_call_16() {
    let mut d = Decoder::new(16, vec![0x9A, 0x34, 0x12, 0x78, 0x56], 0, DecoderOptions::NONE);
    let i = d.decode().unwrap();
    assert_eq!(i.code, Code::CallPtr1616);
    assert_eq!(i.op0_kind, OpKind::FarBranch16);
    assert_eq!(i.far_branch_target, 0x1234);
    assert_eq!(i.far_branch_selector, 0x5678);
}

#[test]
fn rex_cancelled_by_legacy_prefix() {
    // REX.W then 66 prefix: REX is cancelled, 66 selects 16-bit
    let mut d = Decoder::new(64, vec![0x48, 0x66, 0x89, 0xD8], 0, DecoderOptions::NONE);
    let i = d.decode().unwrap();
    assert_eq!(i.code, Code::MovRm16R16);
}

#[test]
fn cursor_advances_per_result() {
    let mut d = Decoder::new(64, vec![0x90, 0x90], 0, DecoderOptions::NONE);
    assert!(d.can_decode());
    d.decode().unwrap();
    assert_eq!(d.position(), 1);
    d.decode().unwrap();
    assert_eq!(d.position(), 2);
    assert!(!d.can_decode());
    d.set_position(0);
    assert_eq!(d.position(), 0);
}

#[test]
fn default_transients() {
    assert_eq!(VectorLength::default(), VectorLength::L128);
    assert_eq!(MandatoryPrefixByte::default(), MandatoryPrefixByte::PNone);
    assert_eq!(RoundingControl::NoRounding, RoundingControl::NoRounding);
    assert_eq!(iced_x86::enums::tuple_n(TupleType::Full_128, false, false), 16);
    assert_eq!(iced_x86::enums::tuple_n(TupleType::Full_128, false, true), 4);
}
