//! The opcode-descriptor table: a pure lookup from the classified opcode
//! head, the gathered prefixes, the code size and the decoder options to a
//! descriptor that drives operand decoding.  Forms whose mode constraints
//! (required vector length, `W` bit or embedded mandatory prefix) are not
//! met get no descriptor, which the decoder reports as an invalid
//! instruction; quirk-gated entries exist only when their option bit is set.

use vstd::prelude::*;
use crate::enums::{EncodingKind, TupleType};
use crate::head::Head;
use crate::instruction::Code;
use crate::options::DecoderOptions;
use crate::prefix::Prefixes;

verus! {

/// How the trailing bytes and the operand slots of a form are laid out.
#[derive(Copy, Clone, Eq, PartialEq, Structural, Debug)]
pub enum OpsForm {
    /// No ModRM, no immediate, no operands.
    NoOps,
    /// ModRM `/r`: operand 0 is reg-or-memory, operand 1 the `reg` field.
    RmReg,
    /// ModRM `/r`: operand 0 is the `reg` field, operand 1 reg-or-memory.
    RegRm,
    /// ModRM `/0` plus an operand-size immediate (sign-extended to 64-bit
    /// operand size).
    RmImm,
    /// ModRM `/0` plus an 8-bit immediate sign-extended to the operand size.
    RmImm8,
    /// Register in the opcode low bits plus an operand-size immediate.
    RegOpImm,
    /// Near-relative branch displacement of operand size.
    RelBranch,
    /// 8-bit near-relative branch displacement.
    RelBranch8,
    /// Far pointer: operand-size offset plus a 16-bit selector.
    FarBranch,
    /// 16-bit immediate plus a secondary 8-bit immediate.
    EnterImm,
    /// Implied string-instruction memory operands (`es:[di]`, `seg:[si]`).
    StringMovs,
    /// ModRM `/0`, reg-or-memory operand only.
    PopRmForm,
    /// ModRM `/r` where the rm side must be memory (`lds`, `bound`).
    RegMem,
    /// VEX `/r`: vector reg destination, vector-reg-or-memory source.
    VRegRm,
    /// EVEX `/r` with masking: vector reg, vector-reg-or-memory.
    EvexRegRm,
    /// EVEX `/r` with masking and `vvvv`: reg, vvvv reg, reg-or-memory.
    EvexRegVvvvRm,
}

/// One opcode descriptor.
#[derive(Copy, Clone, Eq, PartialEq, Structural, Debug)]
pub struct Desc {
    /// The opcode identity.
    pub code: Code,
    /// Trailing-byte and operand layout.
    pub form: OpsForm,
    /// Effective operand size in bits (16/32/64; 128/256 for vector forms).
    pub osize: u32,
    /// EVEX tuple type for compressed-displacement scaling.
    pub tuple: TupleType,
    /// Bytes accessed by a memory operand of this form.
    pub mem_size: u32,
}

/// The effective operand size in bits: REX.W forces 64, otherwise the `66`
/// prefix flips between 16 and 32 (or 32 and 16 in 16-bit code).
pub open spec fn op_size_spec(bitness: u32, osz: bool, w: bool) -> u32 {
    if bitness == 64 {
        if w {
            64
        } else if osz {
            16
        } else {
            32
        }
    } else if bitness == 32 {
        if osz {
            16
        } else {
            32
        }
    } else {
        if osz {
            32
        } else {
            16
        }
    }
}

/// Returns the effective operand size in bits.
#[verifier::when_used_as_spec(op_size_spec)]
pub fn op_size(bitness: u32, osz: bool, w: bool) -> (r: u32)
    ensures
        r == op_size_spec(bitness, osz, w),
{
    if bitness == 64 {
        if w {
            64
        } else if osz {
            16
        } else {
            32
        }
    } else if bitness == 32 {
        if osz {
            16
        } else {
            32
        }
    } else {
        if osz {
            32
        } else {
            16
        }
    }
}

/// The operand size of a stack operation: in 64-bit code a push/pop is
/// 64-bit by default (16 with a `66` prefix).
pub open spec fn pop_size_spec(bitness: u32, osz: bool) -> u32 {
    if bitness == 64 {
        if osz {
            16
        } else {
            64
        }
    } else {
        op_size_spec(bitness, osz, false)
    }
}

/// Returns the operand size of a stack operation.
#[verifier::when_used_as_spec(pop_size_spec)]
pub fn pop_size(bitness: u32, osz: bool) -> (r: u32)
    ensures
        r == pop_size_spec(bitness, osz),
{
    if bitness == 64 {
        if osz {
            16
        } else {
            64
        }
    } else {
        op_size(bitness, osz, false)
    }
}

/// The effective address size in bits: the `67` prefix flips 64-bit code to
/// 32-bit addressing, 32-bit code to 16 and 16-bit code to 32.
pub open spec fn addr_size_spec(bitness: u32, asz: bool) -> u32 {
    if bitness == 64 {
        if asz {
            32
        } else {
            64
        }
    } else if bitness == 32 {
        if asz {
            16
        } else {
            32
        }
    } else {
        if asz {
            32
        } else {
            16
        }
    }
}

/// Returns the effective address size in bits.
#[verifier::when_used_as_spec(addr_size_spec)]
pub fn addr_size(bitness: u32, asz: bool) -> (r: u32)
    ensures
        r == addr_size_spec(bitness, asz),
{
    if bitness == 64 {
        if asz {
            32
        } else {
            64
        }
    } else if bitness == 32 {
        if asz {
            16
        } else {
            32
        }
    } else {
        if asz {
            32
        } else {
            16
        }
    }
}

/// The descriptor lookup.  `None` means no form matches: the opcode is
/// unmapped, a mode constraint is violated, or a quirk entry's option bit is
/// clear.
pub open spec fn lookup_spec(head: Head, pfx: Prefixes, bitness: u32, options: u32) -> Option<
    Desc,
> {
    let osize = op_size_spec(bitness, pfx.osz, head.w);
    match head.enc {
        EncodingKind::Legacy => if head.map == 1 {
            if head.opcode == 0x90 {
                Some(Desc { code: Code::Nop, form: OpsForm::NoOps, osize, tuple: TupleType::NoTuple, mem_size: 0 })
            } else if head.opcode == 0x89 {
                Some(Desc {
                    code: if osize == 16 { Code::MovRm16R16 } else if osize == 32 { Code::MovRm32R32 } else { Code::MovRm64R64 },
                    form: OpsForm::RmReg, osize, tuple: TupleType::NoTuple, mem_size: osize / 8,
                })
            } else if head.opcode == 0x8B {
                Some(Desc {
                    code: if osize == 16 { Code::MovR16Rm16 } else if osize == 32 { Code::MovR32Rm32 } else { Code::MovR64Rm64 },
                    form: OpsForm::RegRm, osize, tuple: TupleType::NoTuple, mem_size: osize / 8,
                })
            } else if 0xB8 <= head.opcode && head.opcode <= 0xBF {
                Some(Desc {
                    code: if osize == 16 { Code::MovR16Imm16 } else if osize == 32 { Code::MovR32Imm32 } else { Code::MovR64Imm64 },
                    form: OpsForm::RegOpImm, osize, tuple: TupleType::NoTuple, mem_size: 0,
                })
            } else if head.opcode == 0xC7 {
                Some(Desc {
                    code: if osize == 16 { Code::MovRm16Imm16 } else if osize == 32 { Code::MovRm32Imm32 } else { Code::MovRm64Imm32 },
                    form: OpsForm::RmImm, osize, tuple: TupleType::NoTuple, mem_size: osize / 8,
                })
            } else if head.opcode == 0x83 {
                Some(Desc {
                    code: if osize == 16 { Code::AddRm16Imm8 } else if osize == 32 { Code::AddRm32Imm8 } else { Code::AddRm64Imm8 },
                    form: OpsForm::RmImm8, osize, tuple: TupleType::NoTuple, mem_size: osize / 8,
                })
            } else if head.opcode == 0xE8 {
                if bitness == 64 {
                    Some(Desc { code: Code::CallRel32_64, form: OpsForm::RelBranch, osize: 64, tuple: TupleType::NoTuple, mem_size: 0 })
                } else if osize == 16 {
                    Some(Desc { code: Code::CallRel16, form: OpsForm::RelBranch, osize: 16, tuple: TupleType::NoTuple, mem_size: 0 })
                } else {
                    Some(Desc { code: Code::CallRel32_32, form: OpsForm::RelBranch, osize: 32, tuple: TupleType::NoTuple, mem_size: 0 })
                }
            } else if head.opcode == 0xEB {
                if bitness == 64 {
                    Some(Desc { code: Code::JmpRel8_64, form: OpsForm::RelBranch8, osize: 64, tuple: TupleType::NoTuple, mem_size: 0 })
                } else if osize == 16 {
                    Some(Desc { code: Code::JmpRel8_16, form: OpsForm::RelBranch8, osize: 16, tuple: TupleType::NoTuple, mem_size: 0 })
                } else {
                    Some(Desc { code: Code::JmpRel8_32, form: OpsForm::RelBranch8, osize: 32, tuple: TupleType::NoTuple, mem_size: 0 })
                }
            } else if head.opcode == 0x9A && bitness != 64 {
                Some(Desc {
                    code: if osize == 16 { Code::CallPtr1616 } else { Code::CallPtr1632 },
                    form: OpsForm::FarBranch, osize, tuple: TupleType::NoTuple, mem_size: 0,
                })
            } else if head.opcode == 0xC8 {
                Some(Desc { code: Code::Enter, form: OpsForm::EnterImm, osize, tuple: TupleType::NoTuple, mem_size: 0 })
            } else if head.opcode == 0xA4 {
                Some(Desc { code: Code::Movsb, form: OpsForm::StringMovs, osize, tuple: TupleType::NoTuple, mem_size: 1 })
            } else if head.opcode == 0x8F {
                let psize = pop_size_spec(bitness, pfx.osz);
                Some(Desc {
                    code: if psize == 16 { Code::PopRm16 } else if psize == 32 { Code::PopRm32 } else { Code::PopRm64 },
                    form: OpsForm::PopRmForm, osize: psize, tuple: TupleType::NoTuple, mem_size: psize / 8,
                })
            } else if head.opcode == 0xC5 && bitness != 64 {
                Some(Desc {
                    code: if osize == 16 { Code::LdsR16M } else { Code::LdsR32M },
                    form: OpsForm::RegMem, osize, tuple: TupleType::NoTuple, mem_size: (osize / 8 + 2) as u32,
                })
            } else if head.opcode == 0x62 && bitness != 64 {
                Some(Desc {
                    code: if osize == 16 { Code::BoundR16M } else { Code::BoundR32M },
                    form: OpsForm::RegMem, osize, tuple: TupleType::NoTuple, mem_size: osize / 4,
                })
            } else {
                None
            }
        } else if head.map == 2 {
            if head.opcode == 0x0A && options & DecoderOptions::CL1INVMB != 0 {
                Some(Desc { code: Code::Cl1invmb, form: OpsForm::NoOps, osize, tuple: TupleType::NoTuple, mem_size: 0 })
            } else if head.opcode == 0x11 && options & DecoderOptions::UMOV != 0 && bitness != 64 {
                Some(Desc {
                    code: if osize == 16 { Code::UmovRm16R16 } else { Code::UmovRm32R32 },
                    form: OpsForm::RmReg, osize, tuple: TupleType::NoTuple, mem_size: osize / 8,
                })
            } else {
                None
            }
        } else {
            None
        },
        EncodingKind::VEX => if head.map == 2 && head.opcode == 0x10 && head.pp == 0 {
            if head.ll == 0 {
                Some(Desc { code: Code::VexVmovups128, form: OpsForm::VRegRm, osize: 128, tuple: TupleType::NoTuple, mem_size: 16 })
            } else {
                Some(Desc { code: Code::VexVmovups256, form: OpsForm::VRegRm, osize: 256, tuple: TupleType::NoTuple, mem_size: 32 })
            }
        } else {
            None
        },
        EncodingKind::EVEX => if head.map == 2 && head.pp == 0 && !head.w && head.ll == 0 {
            if head.opcode == 0x10 && !head.bcst {
                Some(Desc { code: Code::EvexVmovups128, form: OpsForm::EvexRegRm, osize: 128, tuple: TupleType::Full_Mem_128, mem_size: 16 })
            } else if head.opcode == 0x58 {
                Some(Desc {
                    code: Code::EvexVaddps128, form: OpsForm::EvexRegVvvvRm, osize: 128, tuple: TupleType::Full_128,
                    mem_size: if head.bcst { 4 } else { 16 },
                })
            } else {
                None
            }
        } else {
            None
        },
        EncodingKind::XOP => None,
        EncodingKind::D3NOW => None,
    }
}

/// Looks the classified head up in the descriptor table.
#[verifier::when_used_as_spec(lookup_spec)]
pub fn lookup(head: Head, pfx: Prefixes, bitness: u32, options: u32) -> (r: Option<Desc>)
    ensures
        r == lookup_spec(head, pfx, bitness, options),
{
    let osize = op_size(bitness, pfx.osz, head.w);
    match head.enc {
        EncodingKind::Legacy => if head.map == 1 {
            if head.opcode == 0x90 {
                Some(Desc { code: Code::Nop, form: OpsForm::NoOps, osize, tuple: TupleType::NoTuple, mem_size: 0 })
            } else if head.opcode == 0x89 {
                Some(Desc {
                    code: if osize == 16 { Code::MovRm16R16 } else if osize == 32 { Code::MovRm32R32 } else { Code::MovRm64R64 },
                    form: OpsForm::RmReg, osize, tuple: TupleType::NoTuple, mem_size: osize / 8,
                })
            } else if head.opcode == 0x8B {
                Some(Desc {
                    code: if osize == 16 { Code::MovR16Rm16 } else if osize == 32 { Code::MovR32Rm32 } else { Code::MovR64Rm64 },
                    form: OpsForm::RegRm, osize, tuple: TupleType::NoTuple, mem_size: osize / 8,
                })
            } else if 0xB8 <= head.opcode && head.opcode <= 0xBF {
                Some(Desc {
                    code: if osize == 16 { Code::MovR16Imm16 } else if osize == 32 { Code::MovR32Imm32 } else { Code::MovR64Imm64 },
                    form: OpsForm::RegOpImm, osize, tuple: TupleType::NoTuple, mem_size: 0,
                })
            } else if head.opcode == 0xC7 {
                Some(Desc {
                    code: if osize == 16 { Code::MovRm16Imm16 } else if osize == 32 { Code::MovRm32Imm32 } else { Code::MovRm64Imm32 },
                    form: OpsForm::RmImm, osize, tuple: TupleType::NoTuple, mem_size: osize / 8,
                })
            } else if head.opcode == 0x83 {
                Some(Desc {
                    code: if osize == 16 { Code::AddRm16Imm8 } else if osize == 32 { Code::AddRm32Imm8 } else { Code::AddRm64Imm8 },
                    form: OpsForm::RmImm8, osize, tuple: TupleType::NoTuple, mem_size: osize / 8,
                })
            } else if head.opcode == 0xE8 {
                if bitness == 64 {
                    Some(Desc { code: Code::CallRel32_64, form: OpsForm::RelBranch, osize: 64, tuple: TupleType::NoTuple, mem_size: 0 })
                } else if osize == 16 {
                    Some(Desc { code: Code::CallRel16, form: OpsForm::RelBranch, osize: 16, tuple: TupleType::NoTuple, mem_size: 0 })
                } else {
                    Some(Desc { code: Code::CallRel32_32, form: OpsForm::RelBranch, osize: 32, tuple: TupleType::NoTuple, mem_size: 0 })
                }
            } else if head.opcode == 0xEB {
                if bitness == 64 {
                    Some(Desc { code: Code::JmpRel8_64, form: OpsForm::RelBranch8, osize: 64, tuple: TupleType::NoTuple, mem_size: 0 })
                } else if osize == 16 {
                    Some(Desc { code: Code::JmpRel8_16, form: OpsForm::RelBranch8, osize: 16, tuple: TupleType::NoTuple, mem_size: 0 })
                } else {
                    Some(Desc { code: Code::JmpRel8_32, form: OpsForm::RelBranch8, osize: 32, tuple: TupleType::NoTuple, mem_size: 0 })
                }
            } else if head.opcode == 0x9A && bitness != 64 {
                Some(Desc {
                    code: if osize == 16 { Code::CallPtr1616 } else { Code::CallPtr1632 },
                    form: OpsForm::FarBranch, osize, tuple: TupleType::NoTuple, mem_size: 0,
                })
            } else if head.opcode == 0xC8 {
                Some(Desc { code: Code::Enter, form: OpsForm::EnterImm, osize, tuple: TupleType::NoTuple, mem_size: 0 })
            } else if head.opcode == 0xA4 {
                Some(Desc { code: Code::Movsb, form: OpsForm::StringMovs, osize, tuple: TupleType::NoTuple, mem_size: 1 })
            } else if head.opcode == 0x8F {
                let psize = pop_size(bitness, pfx.osz);
                Some(Desc {
                    code: if psize == 16 { Code::PopRm16 } else if psize == 32 { Code::PopRm32 } else { Code::PopRm64 },
                    form: OpsForm::PopRmForm, osize: psize, tuple: TupleType::NoTuple, mem_size: psize / 8,
                })
            } else if head.opcode == 0xC5 && bitness != 64 {
                Some(Desc {
                    code: if osize == 16 { Code::LdsR16M } else { Code::LdsR32M },
                    form: OpsForm::RegMem, osize, tuple: TupleType::NoTuple, mem_size: osize / 8 + 2,
                })
            } else if head.opcode == 0x62 && bitness != 64 {
                Some(Desc {
                    code: if osize == 16 { Code::BoundR16M } else { Code::BoundR32M },
                    form: OpsForm::RegMem, osize, tuple: TupleType::NoTuple, mem_size: osize / 4,
                })
            } else {
                None
            }
        } else if head.map == 2 {
            if head.opcode == 0x0A && options & DecoderOptions::CL1INVMB != 0 {
                Some(Desc { code: Code::Cl1invmb, form: OpsForm::NoOps, osize, tuple: TupleType::NoTuple, mem_size: 0 })
            } else if head.opcode == 0x11 && options & DecoderOptions::UMOV != 0 && bitness != 64 {
                Some(Desc {
                    code: if osize == 16 { Code::UmovRm16R16 } else { Code::UmovRm32R32 },
                    form: OpsForm::RmReg, osize, tuple: TupleType::NoTuple, mem_size: osize / 8,
                })
            } else {
                None
            }
        } else {
            None
        },
        EncodingKind::VEX => if head.map == 2 && head.opcode == 0x10 && head.pp == 0 {
            if head.ll == 0 {
                Some(Desc { code: Code::VexVmovups128, form: OpsForm::VRegRm, osize: 128, tuple: TupleType::NoTuple, mem_size: 16 })
            } else {
                Some(Desc { code: Code::VexVmovups256, form: OpsForm::VRegRm, osize: 256, tuple: TupleType::NoTuple, mem_size: 32 })
            }
        } else {
            None
        },
        EncodingKind::EVEX => if head.map == 2 && head.pp == 0 && !head.w && head.ll == 0 {
            if head.opcode == 0x10 && !head.bcst {
                Some(Desc { code: Code::EvexVmovups128, form: OpsForm::EvexRegRm, osize: 128, tuple: TupleType::Full_Mem_128, mem_size: 16 })
            } else if head.opcode == 0x58 {
                Some(Desc {
                    code: Code::EvexVaddps128, form: OpsForm::EvexRegVvvvRm, osize: 128, tuple: TupleType::Full_128,
                    mem_size: if head.bcst { 4 } else { 16 },
                })
            } else {
                None
            }
        } else {
            None
        },
        EncodingKind::XOP => None,
        EncodingKind::D3NOW => None,
    }
}

} // verus!
