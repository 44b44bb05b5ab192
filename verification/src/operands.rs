//! The operand decoder: ModRM/SIB/displacement memory operands, immediates
//! and branch targets, driven by the opcode descriptor.  The functional
//! model is the authority; the executable twin is proved equal to it.

use vstd::prelude::*;
use crate::enums::{CodeSize, OpKind, TupleType};
use crate::enums::tuple_n_spec;
use crate::enums::tuple_n;
use crate::errors::DecodeError;
use crate::head::Head;
use crate::instruction::{inst_default, Instruction};
use crate::nums::{scaled_disp8_spec, scaled_disp8, sx8_16_spec, sx8_16, sx8_32_spec, sx8_32, sx8_64_spec, sx8_64, sx16_64_spec, sx16_64, sx32_64_spec, sx32_64, wadd_spec, wadd};
use crate::prefix::Prefixes;
use crate::reader::{corresponds, pos_wf, rd16, rd32, rd64, rd8, read_u16, read_u32, read_u64, read_u8};
use crate::reader::{lemma_rd16_bounds, lemma_rd16_trunc, lemma_rd32_bounds, lemma_rd32_trunc, lemma_rd64_bounds, lemma_rd64_trunc, lemma_rd8_bounds, lemma_rd8_trunc, MAX_INSN_LEN};
use crate::regs::{gpr_spec, gpr, vec_reg_spec, vec_reg, REG_BP, REG_BX, REG_DI, REG_DS, REG_EBP, REG_EIP, REG_ESP, REG_FS, REG_GS, REG_NONE, REG_RBP, REG_RIP, REG_RSP, REG_SI, REG_SP, REG_SS};
use crate::table::{addr_size_spec, addr_size, Desc, OpsForm};

verus! {

/// One decoded memory operand.
#[derive(Copy, Clone, Eq, PartialEq, Structural, Debug)]
pub struct MemOp {
    /// Base register or `REG_NONE`.
    pub base: u32,
    /// Index register or `REG_NONE`.
    pub index: u32,
    /// Index scale: 1, 2, 4 or 8.
    pub scale: u32,
    /// Displacement, sign-extended to 64 bits (EVEX disp8 already scaled).
    pub displ: u64,
    /// Bytes of displacement on the wire.
    pub displ_size: u32,
    /// Effective segment.
    pub seg: u32,
}

/// The effective segment: an explicit override wins (in 64-bit code only
/// `fs`/`gs` overrides are honored), otherwise the addressing default.
pub open spec fn eff_seg_spec(seg_prefix: u32, def: u32, bitness: u32) -> u32 {
    if seg_prefix != REG_NONE && (bitness != 64 || seg_prefix == REG_FS || seg_prefix == REG_GS) {
        seg_prefix
    } else {
        def
    }
}

/// Returns the effective segment of a memory operand.
#[verifier::when_used_as_spec(eff_seg_spec)]
pub fn eff_seg(seg_prefix: u32, def: u32, bitness: u32) -> (r: u32)
    ensures
        r == eff_seg_spec(seg_prefix, def, bitness),
{
    if seg_prefix != REG_NONE && (bitness != 64 || seg_prefix == REG_FS || seg_prefix == REG_GS) {
        seg_prefix
    } else {
        def
    }
}

/// Whether `base` belongs to the stack-pointer family, whose default
/// segment is `ss`.
pub open spec fn is_stack_base_spec(base: u32) -> bool {
    base == REG_SP || base == REG_BP || base == REG_ESP || base == REG_EBP || base == REG_RSP
        || base == REG_RBP
}

/// Returns whether the default segment of `base` is `ss`.
#[verifier::when_used_as_spec(is_stack_base_spec)]
pub fn is_stack_base(base: u32) -> (r: bool)
    ensures
        r == is_stack_base_spec(base),
{
    base == REG_SP || base == REG_BP || base == REG_ESP || base == REG_EBP || base == REG_RSP
        || base == REG_RBP
}

/// The fixed base register of a 16-bit addressing form.
pub open spec fn mem16_base_spec(rm: u8) -> u32 {
    if rm == 0 || rm == 1 || rm == 7 {
        REG_BX
    } else if rm == 2 || rm == 3 || rm == 6 {
        REG_BP
    } else if rm == 4 {
        REG_SI
    } else {
        REG_DI
    }
}

/// Returns the fixed base register of a 16-bit addressing form.
#[verifier::when_used_as_spec(mem16_base_spec)]
pub fn mem16_base(rm: u8) -> (r: u32)
    ensures
        r == mem16_base_spec(rm),
{
    if rm == 0 || rm == 1 || rm == 7 {
        REG_BX
    } else if rm == 2 || rm == 3 || rm == 6 {
        REG_BP
    } else if rm == 4 {
        REG_SI
    } else {
        REG_DI
    }
}

/// The fixed index register of a 16-bit addressing form, or `REG_NONE`.
pub open spec fn mem16_index_spec(rm: u8) -> u32 {
    if rm == 0 || rm == 2 {
        REG_SI
    } else if rm == 1 || rm == 3 {
        REG_DI
    } else {
        REG_NONE
    }
}

/// Returns the fixed index register of a 16-bit addressing form.
#[verifier::when_used_as_spec(mem16_index_spec)]
pub fn mem16_index(rm: u8) -> (r: u32)
    ensures
        r == mem16_index_spec(rm),
{
    if rm == 0 || rm == 2 {
        REG_SI
    } else if rm == 1 || rm == 3 {
        REG_DI
    } else {
        REG_NONE
    }
}

/// Reads the displacement selected by the `mod` field in 32/64-bit
/// addressing: none, a scaled disp8, or a sign-extended disp32.
pub open spec fn disp_for_mod(b: Seq<u8>, start: int, p: int, md: u8, n: u64) -> Result<
    ((u64, u32), int),
    (DecodeError, int),
> {
    if md == 1 {
        match rd8(b, start, p) {
            Err(e) => Err(e),
            Ok((v, q)) => Ok(((scaled_disp8_spec(v, n), 1), q)),
        }
    } else if md == 2 {
        match rd32(b, start, p) {
            Err(e) => Err(e),
            Ok((v, q)) => Ok(((sx32_64_spec(v), 4), q)),
        }
    } else {
        Ok(((0, 0), p))
    }
}

/// Decodes the memory operand selected by a ModRM byte with fields
/// `md`/`rm` (with `md != 3`), reading an SIB byte and displacement as the
/// form requires.  `n` is the EVEX compressed-displacement factor (1 for
/// legacy and VEX forms).
pub open spec fn mem_decode(
    b: Seq<u8>,
    start: int,
    p: int,
    md: u8,
    rm: u8,
    head: Head,
    pfx: Prefixes,
    bitness: u32,
    n: u64,
) -> Result<(MemOp, int), (DecodeError, int)> {
    let asize = addr_size_spec(bitness, pfx.asz);
    if asize == 16 {
        if md == 0 && rm == 6 {
            match rd16(b, start, p) {
                Err(e) => Err(e),
                Ok((v, q)) => Ok((
                    MemOp {
                        base: REG_NONE,
                        index: REG_NONE,
                        scale: 1,
                        displ: v as u64,
                        displ_size: 2,
                        seg: eff_seg_spec(pfx.seg, REG_DS, bitness),
                    },
                    q,
                )),
            }
        } else {
            let base = mem16_base_spec(rm);
            let index = mem16_index_spec(rm);
            let def = if rm == 2 || rm == 3 || rm == 6 {
                REG_SS
            } else {
                REG_DS
            };
            if md == 1 {
                match rd8(b, start, p) {
                    Err(e) => Err(e),
                    Ok((v, q)) => Ok((
                        MemOp {
                            base,
                            index,
                            scale: 1,
                            displ: sx8_16_spec(v),
                            displ_size: 1,
                            seg: eff_seg_spec(pfx.seg, def, bitness),
                        },
                        q,
                    )),
                }
            } else if md == 2 {
                match rd16(b, start, p) {
                    Err(e) => Err(e),
                    Ok((v, q)) => Ok((
                        MemOp {
                            base,
                            index,
                            scale: 1,
                            displ: v as u64,
                            displ_size: 2,
                            seg: eff_seg_spec(pfx.seg, def, bitness),
                        },
                        q,
                    )),
                }
            } else {
                Ok((
                    MemOp {
                        base,
                        index,
                        scale: 1,
                        displ: 0,
                        displ_size: 0,
                        seg: eff_seg_spec(pfx.seg, def, bitness),
                    },
                    p,
                ))
            }
        }
    } else {
        if rm == 4 {
            match rd8(b, start, p) {
                Err(e) => Err(e),
                Ok((sib, p1)) => {
                    let ss = (sib >> 6) & 3;
                    let idx = (((sib >> 3) & 7) as u32 + if head.xx {
                        8u32
                    } else {
                        0u32
                    }) as u32;
                    let index = if idx == 4 {
                        REG_NONE
                    } else {
                        gpr_spec(asize, idx)
                    };
                    let scale = (1u32 << ss) as u32;
                    if sib & 7 == 5 && md == 0 {
                        match rd32(b, start, p1) {
                            Err(e) => Err(e),
                            Ok((v, q)) => Ok((
                                MemOp {
                                    base: REG_NONE,
                                    index,
                                    scale,
                                    displ: sx32_64_spec(v),
                                    displ_size: 4,
                                    seg: eff_seg_spec(pfx.seg, REG_DS, bitness),
                                },
                                q,
                            )),
                        }
                    } else {
                        let base = gpr_spec(
                            asize,
                            ((sib & 7) as u32 + if head.bb {
                                8u32
                            } else {
                                0u32
                            }) as u32,
                        );
                        let def = if is_stack_base_spec(base) {
                            REG_SS
                        } else {
                            REG_DS
                        };
                        match disp_for_mod(b, start, p1, md, n) {
                            Err(e) => Err(e),
                            Ok(((displ, dsize), q)) => Ok((
                                MemOp {
                                    base,
                                    index,
                                    scale,
                                    displ,
                                    displ_size: dsize,
                                    seg: eff_seg_spec(pfx.seg, def, bitness),
                                },
                                q,
                            )),
                        }
                    }
                },
            }
        } else if md == 0 && rm == 5 {
            match rd32(b, start, p) {
                Err(e) => Err(e),
                Ok((v, q)) => Ok((
                    MemOp {
                        base: if bitness == 64 {
                            if asize == 64 {
                                REG_RIP
                            } else {
                                REG_EIP
                            }
                        } else {
                            REG_NONE
                        },
                        index: REG_NONE,
                        scale: 1,
                        displ: sx32_64_spec(v),
                        displ_size: 4,
                        seg: eff_seg_spec(pfx.seg, REG_DS, bitness),
                    },
                    q,
                )),
            }
        } else {
            let base = gpr_spec(
                asize,
                (rm as u32 + if head.bb {
                    8u32
                } else {
                    0u32
                }) as u32,
            );
            let def = if is_stack_base_spec(base) {
                REG_SS
            } else {
                REG_DS
            };
            match disp_for_mod(b, start, p, md, n) {
                Err(e) => Err(e),
                Ok(((displ, dsize), q)) => Ok((
                    MemOp {
                        base,
                        index: REG_NONE,
                        scale: 1,
                        displ,
                        displ_size: dsize,
                        seg: eff_seg_spec(pfx.seg, def, bitness),
                    },
                    q,
                )),
            }
        }
    }
}

/// Position bounds of the memory decoder.
pub proof fn lemma_mem_bounds(
    b: Seq<u8>,
    start: int,
    p: int,
    md: u8,
    rm: u8,
    head: Head,
    pfx: Prefixes,
    bitness: u32,
    n: u64,
)
    requires
        0 <= p <= b.len(),
        p <= start + MAX_INSN_LEN,
    ensures
        mem_decode(b, start, p, md, rm, head, pfx, bitness, n) matches Ok((m, q)) ==>
            p <= q && q <= b.len() && q <= start + MAX_INSN_LEN,
        mem_decode(b, start, p, md, rm, head, pfx, bitness, n) matches Err((e, q)) ==>
            p <= q && q <= b.len() && q <= start + MAX_INSN_LEN,
{
    lemma_rd8_bounds(b, start, p);
    lemma_rd16_bounds(b, start, p);
    lemma_rd32_bounds(b, start, p);
    match rd8(b, start, p) {
        Ok((sib, p1)) => {
            lemma_rd32_bounds(b, start, p1);
        },
        _ => {},
    }
}

/// Truncation behaviour of the memory decoder.
pub proof fn lemma_mem_trunc(
    b: Seq<u8>,
    start: int,
    p: int,
    md: u8,
    rm: u8,
    head: Head,
    pfx: Prefixes,
    bitness: u32,
    n: u64,
    k: int,
)
    requires
        0 <= p <= k,
        k <= b.len(),
    ensures
        mem_decode(b, start, p, md, rm, head, pfx, bitness, n) matches Ok((m, q)) ==> {
            &&& q <= k ==> mem_decode(b.take(k), start, p, md, rm, head, pfx, bitness, n)
                == mem_decode(b, start, p, md, rm, head, pfx, bitness, n)
            &&& k < q ==> (mem_decode(b.take(k), start, p, md, rm, head, pfx, bitness, n)
                matches Err((e, qe)) && e == DecodeError::TruncatedInput && p <= qe < q)
        },
{
    lemma_rd8_trunc(b, start, p, k);
    lemma_rd16_trunc(b, start, p, k);
    lemma_rd32_trunc(b, start, p, k);
    lemma_rd8_bounds(b, start, p);
    lemma_rd16_bounds(b, start, p);
    lemma_rd32_bounds(b, start, p);
    match rd8(b, start, p) {
        Ok((sib, p1)) => {
            lemma_rd8_trunc(b, start, p1, k);
            lemma_rd32_trunc(b, start, p1, k);
            lemma_rd8_bounds(b, start, p1);
            lemma_rd32_bounds(b, start, p1);
        },
        _ => {},
    }
}

/// Decodes the memory operand, exactly as the model `mem_decode` does.
#[verifier::rlimit(30)]
pub fn mem_decode_x(
    b: &Vec<u8>,
    start: usize,
    p: usize,
    md: u8,
    rm: u8,
    head: Head,
    pfx: Prefixes,
    bitness: u32,
    n: u64,
) -> (r: Result<(MemOp, usize), (DecodeError, usize)>)
    requires
        pos_wf(b@, start as int, p as int),
        1 <= n <= 64,
        rm < 8,
    ensures
        corresponds(r, mem_decode(b@, start as int, p as int, md, rm, head, pfx, bitness, n)),
{
    let asize = addr_size(bitness, pfx.asz);
    if asize == 16 {
        if md == 0 && rm == 6 {
            match read_u16(b, start, p) {
                Err(e) => Err(e),
                Ok((v, q)) => Ok((
                    MemOp {
                        base: REG_NONE,
                        index: REG_NONE,
                        scale: 1,
                        displ: v as u64,
                        displ_size: 2,
                        seg: eff_seg(pfx.seg, REG_DS, bitness),
                    },
                    q,
                )),
            }
        } else {
            let base = mem16_base(rm);
            let index = mem16_index(rm);
            let def = if rm == 2 || rm == 3 || rm == 6 {
                REG_SS
            } else {
                REG_DS
            };
            if md == 1 {
                match read_u8(b, start, p) {
                    Err(e) => Err(e),
                    Ok((v, q)) => Ok((
                        MemOp {
                            base,
                            index,
                            scale: 1,
                            displ: sx8_16(v),
                            displ_size: 1,
                            seg: eff_seg(pfx.seg, def, bitness),
                        },
                        q,
                    )),
                }
            } else if md == 2 {
                match read_u16(b, start, p) {
                    Err(e) => Err(e),
                    Ok((v, q)) => Ok((
                        MemOp {
                            base,
                            index,
                            scale: 1,
                            displ: v as u64,
                            displ_size: 2,
                            seg: eff_seg(pfx.seg, def, bitness),
                        },
                        q,
                    )),
                }
            } else {
                Ok((
                    MemOp {
                        base,
                        index,
                        scale: 1,
                        displ: 0,
                        displ_size: 0,
                        seg: eff_seg(pfx.seg, def, bitness),
                    },
                    p,
                ))
            }
        }
    } else {
        if rm == 4 {
            match read_u8(b, start, p) {
                Err(e) => Err(e),
                Ok((sib, p1)) => {
                    let ss = (sib >> 6) & 3;
                    proof {
                        assert((sib >> 6) & 3 < 4) by (bit_vector);
                        assert((sib >> 3) & 7 < 8) by (bit_vector);
                        assert(sib & 7 < 8) by (bit_vector);
                    }
                    let idx = ((sib >> 3) & 7) as u32 + if head.xx {
                        8u32
                    } else {
                        0u32
                    };
                    let index = if idx == 4 {
                        REG_NONE
                    } else {
                        gpr(asize, idx)
                    };
                    let scale = 1u32 << ss;
                    if sib & 7 == 5 && md == 0 {
                        match read_u32(b, start, p1) {
                            Err(e) => Err(e),
                            Ok((v, q)) => Ok((
                                MemOp {
                                    base: REG_NONE,
                                    index,
                                    scale,
                                    displ: sx32_64(v),
                                    displ_size: 4,
                                    seg: eff_seg(pfx.seg, REG_DS, bitness),
                                },
                                q,
                            )),
                        }
                    } else {
                        let base = gpr(
                            asize,
                            (sib & 7) as u32 + if head.bb {
                                8u32
                            } else {
                                0u32
                            },
                        );
                        let def = if is_stack_base(base) {
                            REG_SS
                        } else {
                            REG_DS
                        };
                        let (dd, q) = match disp_for_mod_x(b, start, p1, md, n) {
                            Err(e) => {
                                return Err(e);
                            },
                            Ok(t) => t,
                        };
                        Ok((
                            MemOp {
                                base,
                                index,
                                scale,
                                displ: dd.0,
                                displ_size: dd.1,
                                seg: eff_seg(pfx.seg, def, bitness),
                            },
                            q,
                        ))
                    }
                },
            }
        } else if md == 0 && rm == 5 {
            match read_u32(b, start, p) {
                Err(e) => Err(e),
                Ok((v, q)) => Ok((
                    MemOp {
                        base: if bitness == 64 {
                            if asize == 64 {
                                REG_RIP
                            } else {
                                REG_EIP
                            }
                        } else {
                            REG_NONE
                        },
                        index: REG_NONE,
                        scale: 1,
                        displ: sx32_64(v),
                        displ_size: 4,
                        seg: eff_seg(pfx.seg, REG_DS, bitness),
                    },
                    q,
                )),
            }
        } else {
            let base = gpr(asize, rm as u32 + if head.bb {
                8u32
            } else {
                0u32
            });
            let def = if is_stack_base(base) {
                REG_SS
            } else {
                REG_DS
            };
            let (dd, q) = match disp_for_mod_x(b, start, p, md, n) {
                Err(e) => {
                    return Err(e);
                },
                Ok(t) => t,
            };
            Ok((
                MemOp {
                    base,
                    index: REG_NONE,
                    scale: 1,
                    displ: dd.0,
                    displ_size: dd.1,
                    seg: eff_seg(pfx.seg, def, bitness),
                },
                q,
            ))
        }
    }
}

/// Reads the `mod`-selected displacement, exactly as `disp_for_mod` does.
pub fn disp_for_mod_x(b: &Vec<u8>, start: usize, p: usize, md: u8, n: u64) -> (r: Result<
    ((u64, u32), usize),
    (DecodeError, usize),
>)
    requires
        pos_wf(b@, start as int, p as int),
        1 <= n <= 64,
    ensures
        corresponds(r, disp_for_mod(b@, start as int, p as int, md, n)),
{
    if md == 1 {
        match read_u8(b, start, p) {
            Err(e) => Err(e),
            Ok((v, q)) => Ok(((scaled_disp8(v, n), 1), q)),
        }
    } else if md == 2 {
        match read_u32(b, start, p) {
            Err(e) => Err(e),
            Ok((v, q)) => Ok(((sx32_64(v), 4), q)),
        }
    } else {
        Ok(((0, 0), p))
    }
}

/// The `CodeSize` value of a decoder bitness.
pub open spec fn cs_of_spec(bitness: u32) -> CodeSize {
    if bitness == 64 {
        CodeSize::Code64
    } else if bitness == 32 {
        CodeSize::Code32
    } else {
        CodeSize::Code16
    }
}

/// Returns the `CodeSize` value of a decoder bitness.
#[verifier::when_used_as_spec(cs_of_spec)]
pub fn cs_of(bitness: u32) -> (r: CodeSize)
    ensures
        r == cs_of_spec(bitness),
{
    if bitness == 64 {
        CodeSize::Code64
    } else if bitness == 32 {
        CodeSize::Code32
    } else {
        CodeSize::Code16
    }
}

/// The instruction record before operand decoding: identity, mode and
/// prefix facts filled in, operand slots still unset.
pub open spec fn base_inst_spec(desc: Desc, head: Head, pfx: Prefixes, bitness: u32, ip: u64)
    -> Instruction {
    Instruction {
        code: desc.code,
        code_size: cs_of_spec(bitness),
        encoding: head.enc,
        ip,
        segment_prefix: pfx.seg,
        has_lock_prefix: pfx.lock,
        has_rep_prefix: pfx.f3,
        has_repne_prefix: pfx.f2,
        ..inst_default()
    }
}

/// Builds the instruction record before operand decoding.
#[verifier::when_used_as_spec(base_inst_spec)]
pub fn base_inst(desc: Desc, head: Head, pfx: Prefixes, bitness: u32, ip: u64) -> (r: Instruction)
    ensures
        r == base_inst_spec(desc, head, pfx, bitness, ip),
{
    let mut i = Instruction::new();
    i.code = desc.code;
    i.code_size = cs_of(bitness);
    i.encoding = head.enc;
    i.ip = ip;
    i.segment_prefix = pfx.seg;
    i.has_lock_prefix = pfx.lock;
    i.has_rep_prefix = pfx.f3;
    i.has_repne_prefix = pfx.f2;
    i
}

/// The record with its final length, measured from the instruction start.
pub open spec fn with_len(i: Instruction, start: int, q: int) -> Instruction {
    Instruction { length: (q - start) as u64, ..i }
}

/// The record with the memory-operand fields of `m` filled in.
pub open spec fn set_mem_spec(i: Instruction, m: MemOp, msz: u32) -> Instruction {
    Instruction {
        mem_base: m.base,
        mem_index: m.index,
        mem_scale: m.scale,
        mem_displ: m.displ,
        mem_displ_size: m.displ_size,
        mem_segment: m.seg,
        mem_size: msz,
        ..i
    }
}

/// Fills the memory-operand fields of `m` into the record.
#[verifier::when_used_as_spec(set_mem_spec)]
pub fn set_mem(i: Instruction, m: MemOp, msz: u32) -> (r: Instruction)
    ensures
        r == set_mem_spec(i, m, msz),
{
    let mut r = i;
    r.mem_base = m.base;
    r.mem_index = m.index;
    r.mem_scale = m.scale;
    r.mem_displ = m.displ;
    r.mem_displ_size = m.displ_size;
    r.mem_segment = m.seg;
    r.mem_size = msz;
    r
}

/// Decodes the trailing bytes and operand slots of the matched form and
/// returns the finished instruction (length included) and the position just
/// past the instruction.
pub open spec fn decode_operands(
    b: Seq<u8>,
    start: int,
    p: int,
    desc: Desc,
    head: Head,
    pfx: Prefixes,
    bitness: u32,
    ip: u64,
) -> Result<(Instruction, int), (DecodeError, int)> {
    let i0 = base_inst_spec(desc, head, pfx, bitness, ip);
    match desc.form {
        OpsForm::NoOps => Ok((with_len(i0, start, p), p)),
        OpsForm::StringMovs => {
            let asize = addr_size_spec(bitness, pfx.asz);
            let k0 = if asize == 16 {
                OpKind::MemoryESDI
            } else if asize == 32 {
                OpKind::MemoryESEDI
            } else {
                OpKind::MemoryESRDI
            };
            let k1 = if asize == 16 {
                OpKind::MemorySegSI
            } else if asize == 32 {
                OpKind::MemorySegESI
            } else {
                OpKind::MemorySegRSI
            };
            let i = Instruction {
                op_count: 2,
                op0_kind: k0,
                op1_kind: k1,
                mem_size: desc.mem_size,
                mem_segment: eff_seg_spec(pfx.seg, REG_DS, bitness),
                ..i0
            };
            Ok((with_len(i, start, p), p))
        },
        OpsForm::RegOpImm => {
            let r0 = gpr_spec(desc.osize, ((head.opcode & 7) as u32 + if head.bb { 8u32 } else { 0u32 }) as u32);
            if desc.osize == 16 {
                match rd16(b, start, p) {
                    Err(e) => Err(e),
                    Ok((v, q)) => Ok((with_len(Instruction {
                        op_count: 2, op0_kind: OpKind::Register, op0_register: r0,
                        op1_kind: OpKind::Immediate16, immediate: v as u64, ..i0
                    }, start, q), q)),
                }
            } else if desc.osize == 32 {
                match rd32(b, start, p) {
                    Err(e) => Err(e),
                    Ok((v, q)) => Ok((with_len(Instruction {
                        op_count: 2, op0_kind: OpKind::Register, op0_register: r0,
                        op1_kind: OpKind::Immediate32, immediate: v as u64, ..i0
                    }, start, q), q)),
                }
            } else {
                match rd64(b, start, p) {
                    Err(e) => Err(e),
                    Ok((v, q)) => Ok((with_len(Instruction {
                        op_count: 2, op0_kind: OpKind::Register, op0_register: r0,
                        op1_kind: OpKind::Immediate64, immediate: v, ..i0
                    }, start, q), q)),
                }
            }
        },
        OpsForm::RelBranch => if desc.osize == 16 {
            match rd16(b, start, p) {
                Err(e) => Err(e),
                Ok((v, q)) => Ok((with_len(Instruction {
                    op_count: 1, op0_kind: OpKind::NearBranch16,
                    near_branch_target: (wadd_spec(wadd_spec(ip, (q - start) as u64), sx16_64_spec(v)) & 0xFFFF) as u64,
                    ..i0
                }, start, q), q)),
            }
        } else if desc.osize == 64 {
            match rd32(b, start, p) {
                Err(e) => Err(e),
                Ok((v, q)) => Ok((with_len(Instruction {
                    op_count: 1, op0_kind: OpKind::NearBranch64,
                    near_branch_target: wadd_spec(wadd_spec(ip, (q - start) as u64), sx32_64_spec(v)),
                    ..i0
                }, start, q), q)),
            }
        } else {
            match rd32(b, start, p) {
                Err(e) => Err(e),
                Ok((v, q)) => Ok((with_len(Instruction {
                    op_count: 1, op0_kind: OpKind::NearBranch32,
                    near_branch_target: (wadd_spec(wadd_spec(ip, (q - start) as u64), sx32_64_spec(v)) & 0xFFFF_FFFF) as u64,
                    ..i0
                }, start, q), q)),
            }
        },
        OpsForm::RelBranch8 => match rd8(b, start, p) {
            Err(e) => Err(e),
            Ok((v, q)) => {
                let t = wadd_spec(wadd_spec(ip, (q - start) as u64), sx8_64_spec(v));
                if desc.osize == 16 {
                    Ok((with_len(Instruction {
                        op_count: 1, op0_kind: OpKind::NearBranch16,
                        near_branch_target: (t & 0xFFFF) as u64, ..i0
                    }, start, q), q))
                } else if desc.osize == 32 {
                    Ok((with_len(Instruction {
                        op_count: 1, op0_kind: OpKind::NearBranch32,
                        near_branch_target: (t & 0xFFFF_FFFF) as u64, ..i0
                    }, start, q), q))
                } else {
                    Ok((with_len(Instruction {
                        op_count: 1, op0_kind: OpKind::NearBranch64,
                        near_branch_target: t, ..i0
                    }, start, q), q))
                }
            },
        },
        OpsForm::FarBranch => if desc.osize == 16 {
            match rd16(b, start, p) {
                Err(e) => Err(e),
                Ok((off, p1)) => match rd16(b, start, p1) {
                    Err(e) => Err(e),
                    Ok((sel, q)) => Ok((with_len(Instruction {
                        op_count: 1, op0_kind: OpKind::FarBranch16,
                        far_branch_target: off as u32, far_branch_selector: sel, ..i0
                    }, start, q), q)),
                },
            }
        } else {
            match rd32(b, start, p) {
                Err(e) => Err(e),
                Ok((off, p1)) => match rd16(b, start, p1) {
                    Err(e) => Err(e),
                    Ok((sel, q)) => Ok((with_len(Instruction {
                        op_count: 1, op0_kind: OpKind::FarBranch32,
                        far_branch_target: off, far_branch_selector: sel, ..i0
                    }, start, q), q)),
                },
            }
        },
        OpsForm::EnterImm => match rd16(b, start, p) {
            Err(e) => Err(e),
            Ok((v, p1)) => match rd8(b, start, p1) {
                Err(e) => Err(e),
                Ok((v2, q)) => Ok((with_len(Instruction {
                    op_count: 2, op0_kind: OpKind::Immediate16, immediate: v as u64,
                    op1_kind: OpKind::Immediate8_2nd, immediate2: v2, ..i0
                }, start, q), q)),
            },
        },
        _ => ops_modrm(b, start, p, desc, head, pfx, bitness, ip),
    }
}

/// The ModRM-taking forms of `decode_operands`: reads the ModRM byte and
/// decodes the register/memory and trailing-immediate operands.
pub open spec fn ops_modrm(
    b: Seq<u8>,
    start: int,
    p: int,
    desc: Desc,
    head: Head,
    pfx: Prefixes,
    bitness: u32,
    ip: u64,
) -> Result<(Instruction, int), (DecodeError, int)> {
    let i0 = base_inst_spec(desc, head, pfx, bitness, ip);
    let nfac = if desc.form == OpsForm::EvexRegRm || desc.form == OpsForm::EvexRegVvvvRm {
        tuple_n_spec(desc.tuple, head.w, head.bcst)
    } else {
        1u64
    };
    match rd8(b, start, p) {
        Err(e) => Err(e),
        Ok((m, p1)) => {
            let md = m >> 6;
            let reg = (m >> 3) & 7;
            let rm = m & 7;
            let reg_gpr = gpr_spec(desc.osize, (reg as u32 + if head.rr { 8u32 } else { 0u32 }) as u32);
            match desc.form {
                OpsForm::RmReg => if md == 3 {
                    Ok((with_len(Instruction {
                        op_count: 2,
                        op0_kind: OpKind::Register,
                        op0_register: gpr_spec(desc.osize, (rm as u32 + if head.bb { 8u32 } else { 0u32 }) as u32),
                        op1_kind: OpKind::Register,
                        op1_register: reg_gpr,
                        ..i0
                    }, start, p1), p1))
                } else {
                    match mem_decode(b, start, p1, md, rm, head, pfx, bitness, nfac) {
                        Err(e) => Err(e),
                        Ok((mo, q)) => Ok((with_len(set_mem_spec(Instruction {
                            op_count: 2, op0_kind: OpKind::Memory,
                            op1_kind: OpKind::Register, op1_register: reg_gpr, ..i0
                        }, mo, desc.mem_size), start, q), q)),
                    }
                },
                OpsForm::RegRm => if md == 3 {
                    Ok((with_len(Instruction {
                        op_count: 2,
                        op0_kind: OpKind::Register,
                        op0_register: reg_gpr,
                        op1_kind: OpKind::Register,
                        op1_register: gpr_spec(desc.osize, (rm as u32 + if head.bb { 8u32 } else { 0u32 }) as u32),
                        ..i0
                    }, start, p1), p1))
                } else {
                    match mem_decode(b, start, p1, md, rm, head, pfx, bitness, nfac) {
                        Err(e) => Err(e),
                        Ok((mo, q)) => Ok((with_len(set_mem_spec(Instruction {
                            op_count: 2, op0_kind: OpKind::Register, op0_register: reg_gpr,
                            op1_kind: OpKind::Memory, ..i0
                        }, mo, desc.mem_size), start, q), q)),
                    }
                },
                OpsForm::RmImm => if reg != 0 {
                    Err((DecodeError::InvalidInstruction, p1))
                } else {
                    let rm_slot = if md == 3 {
                        Ok::<(Instruction, int), (DecodeError, int)>((Instruction {
                            op0_kind: OpKind::Register,
                            op0_register: gpr_spec(desc.osize, (rm as u32 + if head.bb { 8u32 } else { 0u32 }) as u32),
                            ..i0
                        }, p1))
                    } else {
                        match mem_decode(b, start, p1, md, rm, head, pfx, bitness, nfac) {
                            Err(e) => Err(e),
                            Ok((mo, q)) => Ok((set_mem_spec(Instruction {
                                op0_kind: OpKind::Memory, ..i0
                            }, mo, desc.mem_size), q)),
                        }
                    };
                    match rm_slot {
                        Err(e) => Err(e),
                        Ok((i1, p2)) => if desc.osize == 16 {
                            match rd16(b, start, p2) {
                                Err(e) => Err(e),
                                Ok((v, q)) => Ok((with_len(Instruction {
                                    op_count: 2, op1_kind: OpKind::Immediate16,
                                    immediate: v as u64, ..i1
                                }, start, q), q)),
                            }
                        } else if desc.osize == 32 {
                            match rd32(b, start, p2) {
                                Err(e) => Err(e),
                                Ok((v, q)) => Ok((with_len(Instruction {
                                    op_count: 2, op1_kind: OpKind::Immediate32,
                                    immediate: v as u64, ..i1
                                }, start, q), q)),
                            }
                        } else {
                            match rd32(b, start, p2) {
                                Err(e) => Err(e),
                                Ok((v, q)) => Ok((with_len(Instruction {
                                    op_count: 2, op1_kind: OpKind::Immediate32to64,
                                    immediate: sx32_64_spec(v), ..i1
                                }, start, q), q)),
                            }
                        },
                    }
                },
                OpsForm::RmImm8 => if reg != 0 {
                    Err((DecodeError::InvalidInstruction, p1))
                } else {
                    let rm_slot = if md == 3 {
                        Ok::<(Instruction, int), (DecodeError, int)>((Instruction {
                            op0_kind: OpKind::Register,
                            op0_register: gpr_spec(desc.osize, (rm as u32 + if head.bb { 8u32 } else { 0u32 }) as u32),
                            ..i0
                        }, p1))
                    } else {
                        match mem_decode(b, start, p1, md, rm, head, pfx, bitness, nfac) {
                            Err(e) => Err(e),
                            Ok((mo, q)) => Ok((set_mem_spec(Instruction {
                                op0_kind: OpKind::Memory, ..i0
                            }, mo, desc.mem_size), q)),
                        }
                    };
                    match rm_slot {
                        Err(e) => Err(e),
                        Ok((i1, p2)) => match rd8(b, start, p2) {
                            Err(e) => Err(e),
                            Ok((v, q)) => {
                                let (kind, val) = if desc.osize == 16 {
                                    (OpKind::Immediate8to16, sx8_16_spec(v))
                                } else if desc.osize == 32 {
                                    (OpKind::Immediate8to32, sx8_32_spec(v))
                                } else {
                                    (OpKind::Immediate8to64, sx8_64_spec(v))
                                };
                                Ok((with_len(Instruction {
                                    op_count: 2, op1_kind: kind, immediate: val, ..i1
                                }, start, q), q))
                            },
                        },
                    }
                },
                OpsForm::PopRmForm => if reg != 0 {
                    Err((DecodeError::InvalidInstruction, p1))
                } else if md == 3 {
                    Ok((with_len(Instruction {
                        op_count: 1,
                        op0_kind: OpKind::Register,
                        op0_register: gpr_spec(desc.osize, (rm as u32 + if head.bb { 8u32 } else { 0u32 }) as u32),
                        ..i0
                    }, start, p1), p1))
                } else {
                    match mem_decode(b, start, p1, md, rm, head, pfx, bitness, nfac) {
                        Err(e) => Err(e),
                        Ok((mo, q)) => Ok((with_len(set_mem_spec(Instruction {
                            op_count: 1, op0_kind: OpKind::Memory, ..i0
                        }, mo, desc.mem_size), start, q), q)),
                    }
                },
                OpsForm::RegMem => if md == 3 {
                    Err((DecodeError::InvalidInstruction, p1))
                } else {
                    match mem_decode(b, start, p1, md, rm, head, pfx, bitness, nfac) {
                        Err(e) => Err(e),
                        Ok((mo, q)) => Ok((with_len(set_mem_spec(Instruction {
                            op_count: 2, op0_kind: OpKind::Register, op0_register: reg_gpr,
                            op1_kind: OpKind::Memory, ..i0
                        }, mo, desc.mem_size), start, q), q)),
                    }
                },
                OpsForm::VRegRm => if head.vvvv != 0 {
                    Err((DecodeError::InvalidInstruction, p1))
                } else {
                    let r0 = vec_reg_spec(head.ll, (reg as u32 + if head.rr { 8u32 } else { 0u32 }) as u32);
                    if md == 3 {
                        Ok((with_len(Instruction {
                            op_count: 2, op0_kind: OpKind::Register, op0_register: r0,
                            op1_kind: OpKind::Register,
                            op1_register: vec_reg_spec(head.ll, (rm as u32 + if head.bb { 8u32 } else { 0u32 }) as u32),
                            ..i0
                        }, start, p1), p1))
                    } else {
                        match mem_decode(b, start, p1, md, rm, head, pfx, bitness, nfac) {
                            Err(e) => Err(e),
                            Ok((mo, q)) => Ok((with_len(set_mem_spec(Instruction {
                                op_count: 2, op0_kind: OpKind::Register, op0_register: r0,
                                op1_kind: OpKind::Memory, ..i0
                            }, mo, desc.mem_size), start, q), q)),
                        }
                    }
                },
                OpsForm::EvexRegRm => if head.vvvv != 0 || head.v2 || (head.z && head.aaa == 0) {
                    Err((DecodeError::InvalidInstruction, p1))
                } else {
                    let r0 = vec_reg_spec(0, (reg as u32 + if head.rr { 8u32 } else { 0u32 } + if head.r2 { 16u32 } else { 0u32 }) as u32);
                    let im = Instruction {
                        op_mask: head.aaa as u32, zeroing_masking: head.z, ..i0
                    };
                    if md == 3 {
                        Ok((with_len(Instruction {
                            op_count: 2, op0_kind: OpKind::Register, op0_register: r0,
                            op1_kind: OpKind::Register,
                            op1_register: vec_reg_spec(0, (rm as u32 + if head.bb { 8u32 } else { 0u32 } + if head.xx { 16u32 } else { 0u32 }) as u32),
                            ..im
                        }, start, p1), p1))
                    } else {
                        match mem_decode(b, start, p1, md, rm, head, pfx, bitness, nfac) {
                            Err(e) => Err(e),
                            Ok((mo, q)) => Ok((with_len(set_mem_spec(Instruction {
                                op_count: 2, op0_kind: OpKind::Register, op0_register: r0,
                                op1_kind: OpKind::Memory, ..im
                            }, mo, desc.mem_size), start, q), q)),
                        }
                    }
                },
                OpsForm::EvexRegVvvvRm => if head.z && head.aaa == 0 {
                    Err((DecodeError::InvalidInstruction, p1))
                } else {
                    let r0 = vec_reg_spec(0, (reg as u32 + if head.rr { 8u32 } else { 0u32 } + if head.r2 { 16u32 } else { 0u32 }) as u32);
                    let r1 = vec_reg_spec(0, ((head.vvvv & 0xF) as u32 + if head.v2 { 16u32 } else { 0u32 }) as u32);
                    let im = Instruction {
                        op_mask: head.aaa as u32, zeroing_masking: head.z,
                        op0_kind: OpKind::Register, op0_register: r0,
                        op1_kind: OpKind::Register, op1_register: r1,
                        op_count: 3, ..i0
                    };
                    if md == 3 {
                        if head.bcst {
                            Err((DecodeError::InvalidInstruction, p1))
                        } else {
                            Ok((with_len(Instruction {
                                op2_kind: OpKind::Register,
                                op2_register: vec_reg_spec(0, (rm as u32 + if head.bb { 8u32 } else { 0u32 } + if head.xx { 16u32 } else { 0u32 }) as u32),
                                ..im
                            }, start, p1), p1))
                        }
                    } else {
                        match mem_decode(b, start, p1, md, rm, head, pfx, bitness, nfac) {
                            Err(e) => Err(e),
                            Ok((mo, q)) => Ok((with_len(set_mem_spec(Instruction {
                                op2_kind: OpKind::Memory, broadcast: head.bcst, ..im
                            }, mo, desc.mem_size), start, q), q)),
                        }
                    }
                },
                _ => Err((DecodeError::InvalidInstruction, p1)),
            }
        },
    }
}

/// One form's case of `lemma_modrm_bounds`.
#[verifier::rlimit(100)]
#[verifier::spinoff_prover]
proof fn lemma_modrm_bounds_rmreg(
    b: Seq<u8>,
    start: int,
    p: int,
    desc: Desc,
    head: Head,
    pfx: Prefixes,
    bitness: u32,
    ip: u64,
)
    requires
        0 <= start <= p <= b.len(),
        p <= start + MAX_INSN_LEN,
        desc.form == OpsForm::RmReg,
    ensures
        ops_modrm(b, start, p, desc, head, pfx, bitness, ip) matches Ok((i, q)) ==> {
            &&& p < q
            &&& q <= b.len() && q <= start + MAX_INSN_LEN
            &&& i.length == q - start
            &&& i.ip == ip
        },
        ops_modrm(b, start, p, desc, head, pfx, bitness, ip) matches Err((e, q)) ==>
            p <= q && q <= b.len() && q <= start + MAX_INSN_LEN,
{
    lemma_rd8_bounds(b, start, p);
    match rd8(b, start, p) {
        Ok((m, p1)) => {
            let md = m >> 6;
            let rm = m & 7;
            let nfac = if desc.form == OpsForm::EvexRegRm || desc.form == OpsForm::EvexRegVvvvRm {
                tuple_n_spec(desc.tuple, head.w, head.bcst)
            } else {
                1u64
            };
            lemma_mem_bounds(b, start, p1, md, rm, head, pfx, bitness, nfac);
            match mem_decode(b, start, p1, md, rm, head, pfx, bitness, nfac) {
                Ok((mo, p2)) => {
                    lemma_rd8_bounds(b, start, p2);
                    lemma_rd16_bounds(b, start, p2);
                    lemma_rd32_bounds(b, start, p2);
                },
                _ => {},
            }
            lemma_rd8_bounds(b, start, p1);
            lemma_rd16_bounds(b, start, p1);
            lemma_rd32_bounds(b, start, p1);
        },
        _ => {},
    }
}

/// One form's case of `lemma_modrm_trunc`.
#[verifier::rlimit(100)]
#[verifier::spinoff_prover]
proof fn lemma_modrm_trunc_rmreg(
    b: Seq<u8>,
    start: int,
    p: int,
    desc: Desc,
    head: Head,
    pfx: Prefixes,
    bitness: u32,
    ip: u64,
    k: int,
)
    requires
        0 <= start <= p <= k,
        k <= b.len(),
        p <= start + MAX_INSN_LEN,
        desc.form == OpsForm::RmReg,
    ensures
        ops_modrm(b, start, p, desc, head, pfx, bitness, ip) matches Ok((i, q)) ==> {
            &&& q <= k ==> ops_modrm(b.take(k), start, p, desc, head, pfx, bitness, ip)
                == ops_modrm(b, start, p, desc, head, pfx, bitness, ip)
            &&& k < q ==> (ops_modrm(b.take(k), start, p, desc, head, pfx, bitness, ip)
                matches Err((e, qe)) && e == DecodeError::TruncatedInput && p <= qe < q)
        },
{
    lemma_rd8_trunc(b, start, p, k);
    lemma_rd8_bounds(b, start, p);
    match rd8(b, start, p) {
        Ok((m, p1)) => {
            let md = m >> 6;
            let rm = m & 7;
            let nfac = if desc.form == OpsForm::EvexRegRm || desc.form == OpsForm::EvexRegVvvvRm {
                tuple_n_spec(desc.tuple, head.w, head.bcst)
            } else {
                1u64
            };
            lemma_mem_bounds(b, start, p1, md, rm, head, pfx, bitness, nfac);
            if p1 <= k {
                lemma_mem_trunc(b, start, p1, md, rm, head, pfx, bitness, nfac, k);
                lemma_rd8_trunc(b, start, p1, k);
                lemma_rd16_trunc(b, start, p1, k);
                lemma_rd32_trunc(b, start, p1, k);
            }
            match mem_decode(b, start, p1, md, rm, head, pfx, bitness, nfac) {
                Ok((mo, p2)) => {
                    if p1 <= k && p2 <= k {
                        lemma_rd8_trunc(b, start, p2, k);
                        lemma_rd16_trunc(b, start, p2, k);
                        lemma_rd32_trunc(b, start, p2, k);
                    }
                    lemma_rd8_bounds(b, start, p2);
                    lemma_rd16_bounds(b, start, p2);
                    lemma_rd32_bounds(b, start, p2);
                },
                _ => {},
            }
            lemma_rd8_bounds(b, start, p1);
            lemma_rd16_bounds(b, start, p1);
            lemma_rd32_bounds(b, start, p1);
        },
        _ => {},
    }
}

/// One form's case of `lemma_modrm_bounds`.
#[verifier::rlimit(100)]
#[verifier::spinoff_prover]
proof fn lemma_modrm_bounds_regrm(
    b: Seq<u8>,
    start: int,
    p: int,
    desc: Desc,
    head: Head,
    pfx: Prefixes,
    bitness: u32,
    ip: u64,
)
    requires
        0 <= start <= p <= b.len(),
        p <= start + MAX_INSN_LEN,
        desc.form == OpsForm::RegRm,
    ensures
        ops_modrm(b, start, p, desc, head, pfx, bitness, ip) matches Ok((i, q)) ==> {
            &&& p < q
            &&& q <= b.len() && q <= start + MAX_INSN_LEN
            &&& i.length == q - start
            &&& i.ip == ip
        },
        ops_modrm(b, start, p, desc, head, pfx, bitness, ip) matches Err((e, q)) ==>
            p <= q && q <= b.len() && q <= start + MAX_INSN_LEN,
{
    lemma_rd8_bounds(b, start, p);
    match rd8(b, start, p) {
        Ok((m, p1)) => {
            let md = m >> 6;
            let rm = m & 7;
            let nfac = if desc.form == OpsForm::EvexRegRm || desc.form == OpsForm::EvexRegVvvvRm {
                tuple_n_spec(desc.tuple, head.w, head.bcst)
            } else {
                1u64
            };
            lemma_mem_bounds(b, start, p1, md, rm, head, pfx, bitness, nfac);
            match mem_decode(b, start, p1, md, rm, head, pfx, bitness, nfac) {
                Ok((mo, p2)) => {
                    lemma_rd8_bounds(b, start, p2);
                    lemma_rd16_bounds(b, start, p2);
                    lemma_rd32_bounds(b, start, p2);
                },
                _ => {},
            }
            lemma_rd8_bounds(b, start, p1);
            lemma_rd16_bounds(b, start, p1);
            lemma_rd32_bounds(b, start, p1);
        },
        _ => {},
    }
}

/// One form's case of `lemma_modrm_trunc`.
#[verifier::rlimit(100)]
#[verifier::spinoff_prover]
proof fn lemma_modrm_trunc_regrm(
    b: Seq<u8>,
    start: int,
    p: int,
    desc: Desc,
    head: Head,
    pfx: Prefixes,
    bitness: u32,
    ip: u64,
    k: int,
)
    requires
        0 <= start <= p <= k,
        k <= b.len(),
        p <= start + MAX_INSN_LEN,
        desc.form == OpsForm::RegRm,
    ensures
        ops_modrm(b, start, p, desc, head, pfx, bitness, ip) matches Ok((i, q)) ==> {
            &&& q <= k ==> ops_modrm(b.take(k), start, p, desc, head, pfx, bitness, ip)
                == ops_modrm(b, start, p, desc, head, pfx, bitness, ip)
            &&& k < q ==> (ops_modrm(b.take(k), start, p, desc, head, pfx, bitness, ip)
                matches Err((e, qe)) && e == DecodeError::TruncatedInput && p <= qe < q)
        },
{
    lemma_rd8_trunc(b, start, p, k);
    lemma_rd8_bounds(b, start, p);
    match rd8(b, start, p) {
        Ok((m, p1)) => {
            let md = m >> 6;
            let rm = m & 7;
            let nfac = if desc.form == OpsForm::EvexRegRm || desc.form == OpsForm::EvexRegVvvvRm {
                tuple_n_spec(desc.tuple, head.w, head.bcst)
            } else {
                1u64
            };
            lemma_mem_bounds(b, start, p1, md, rm, head, pfx, bitness, nfac);
            if p1 <= k {
                lemma_mem_trunc(b, start, p1, md, rm, head, pfx, bitness, nfac, k);
                lemma_rd8_trunc(b, start, p1, k);
                lemma_rd16_trunc(b, start, p1, k);
                lemma_rd32_trunc(b, start, p1, k);
            }
            match mem_decode(b, start, p1, md, rm, head, pfx, bitness, nfac) {
                Ok((mo, p2)) => {
                    if p1 <= k && p2 <= k {
                        lemma_rd8_trunc(b, start, p2, k);
                        lemma_rd16_trunc(b, start, p2, k);
                        lemma_rd32_trunc(b, start, p2, k);
                    }
                    lemma_rd8_bounds(b, start, p2);
                    lemma_rd16_bounds(b, start, p2);
                    lemma_rd32_bounds(b, start, p2);
                },
                _ => {},
            }
            lemma_rd8_bounds(b, start, p1);
            lemma_rd16_bounds(b, start, p1);
            lemma_rd32_bounds(b, start, p1);
        },
        _ => {},
    }
}

/// One form's case of `lemma_modrm_bounds`.
#[verifier::rlimit(100)]
#[verifier::spinoff_prover]
proof fn lemma_modrm_bounds_rmimm(
    b: Seq<u8>,
    start: int,
    p: int,
    desc: Desc,
    head: Head,
    pfx: Prefixes,
    bitness: u32,
    ip: u64,
)
    requires
        0 <= start <= p <= b.len(),
        p <= start + MAX_INSN_LEN,
        desc.form == OpsForm::RmImm,
    ensures
        ops_modrm(b, start, p, desc, head, pfx, bitness, ip) matches Ok((i, q)) ==> {
            &&& p < q
            &&& q <= b.len() && q <= start + MAX_INSN_LEN
            &&& i.length == q - start
            &&& i.ip == ip
        },
        ops_modrm(b, start, p, desc, head, pfx, bitness, ip) matches Err((e, q)) ==>
            p <= q && q <= b.len() && q <= start + MAX_INSN_LEN,
{
    lemma_rd8_bounds(b, start, p);
    match rd8(b, start, p) {
        Ok((m, p1)) => {
            let md = m >> 6;
            let rm = m & 7;
            let nfac = if desc.form == OpsForm::EvexRegRm || desc.form == OpsForm::EvexRegVvvvRm {
                tuple_n_spec(desc.tuple, head.w, head.bcst)
            } else {
                1u64
            };
            lemma_mem_bounds(b, start, p1, md, rm, head, pfx, bitness, nfac);
            match mem_decode(b, start, p1, md, rm, head, pfx, bitness, nfac) {
                Ok((mo, p2)) => {
                    lemma_rd8_bounds(b, start, p2);
                    lemma_rd16_bounds(b, start, p2);
                    lemma_rd32_bounds(b, start, p2);
                },
                _ => {},
            }
            lemma_rd8_bounds(b, start, p1);
            lemma_rd16_bounds(b, start, p1);
            lemma_rd32_bounds(b, start, p1);
        },
        _ => {},
    }
}

/// One form's case of `lemma_modrm_trunc`.
#[verifier::rlimit(100)]
#[verifier::spinoff_prover]
proof fn lemma_modrm_trunc_rmimm(
    b: Seq<u8>,
    start: int,
    p: int,
    desc: Desc,
    head: Head,
    pfx: Prefixes,
    bitness: u32,
    ip: u64,
    k: int,
)
    requires
        0 <= start <= p <= k,
        k <= b.len(),
        p <= start + MAX_INSN_LEN,
        desc.form == OpsForm::RmImm,
    ensures
        ops_modrm(b, start, p, desc, head, pfx, bitness, ip) matches Ok((i, q)) ==> {
            &&& q <= k ==> ops_modrm(b.take(k), start, p, desc, head, pfx, bitness, ip)
                == ops_modrm(b, start, p, desc, head, pfx, bitness, ip)
            &&& k < q ==> (ops_modrm(b.take(k), start, p, desc, head, pfx, bitness, ip)
                matches Err((e, qe)) && e == DecodeError::TruncatedInput && p <= qe < q)
        },
{
    lemma_rd8_trunc(b, start, p, k);
    lemma_rd8_bounds(b, start, p);
    match rd8(b, start, p) {
        Ok((m, p1)) => {
            let md = m >> 6;
            let rm = m & 7;
            let nfac = if desc.form == OpsForm::EvexRegRm || desc.form == OpsForm::EvexRegVvvvRm {
                tuple_n_spec(desc.tuple, head.w, head.bcst)
            } else {
                1u64
            };
            lemma_mem_bounds(b, start, p1, md, rm, head, pfx, bitness, nfac);
            if p1 <= k {
                lemma_mem_trunc(b, start, p1, md, rm, head, pfx, bitness, nfac, k);
                lemma_rd8_trunc(b, start, p1, k);
                lemma_rd16_trunc(b, start, p1, k);
                lemma_rd32_trunc(b, start, p1, k);
            }
            match mem_decode(b, start, p1, md, rm, head, pfx, bitness, nfac) {
                Ok((mo, p2)) => {
                    if p1 <= k && p2 <= k {
                        lemma_rd8_trunc(b, start, p2, k);
                        lemma_rd16_trunc(b, start, p2, k);
                        lemma_rd32_trunc(b, start, p2, k);
                    }
                    lemma_rd8_bounds(b, start, p2);
                    lemma_rd16_bounds(b, start, p2);
                    lemma_rd32_bounds(b, start, p2);
                },
                _ => {},
            }
            lemma_rd8_bounds(b, start, p1);
            lemma_rd16_bounds(b, start, p1);
            lemma_rd32_bounds(b, start, p1);
        },
        _ => {},
    }
}

/// One form's case of `lemma_modrm_bounds`.
#[verifier::rlimit(100)]
#[verifier::spinoff_prover]
proof fn lemma_modrm_bounds_rmimm8(
    b: Seq<u8>,
    start: int,
    p: int,
    desc: Desc,
    head: Head,
    pfx: Prefixes,
    bitness: u32,
    ip: u64,
)
    requires
        0 <= start <= p <= b.len(),
        p <= start + MAX_INSN_LEN,
        desc.form == OpsForm::RmImm8,
    ensures
        ops_modrm(b, start, p, desc, head, pfx, bitness, ip) matches Ok((i, q)) ==> {
            &&& p < q
            &&& q <= b.len() && q <= start + MAX_INSN_LEN
            &&& i.length == q - start
            &&& i.ip == ip
        },
        ops_modrm(b, start, p, desc, head, pfx, bitness, ip) matches Err((e, q)) ==>
            p <= q && q <= b.len() && q <= start + MAX_INSN_LEN,
{
    lemma_rd8_bounds(b, start, p);
    match rd8(b, start, p) {
        Ok((m, p1)) => {
            let md = m >> 6;
            let rm = m & 7;
            let nfac = if desc.form == OpsForm::EvexRegRm || desc.form == OpsForm::EvexRegVvvvRm {
                tuple_n_spec(desc.tuple, head.w, head.bcst)
            } else {
                1u64
            };
            lemma_mem_bounds(b, start, p1, md, rm, head, pfx, bitness, nfac);
            match mem_decode(b, start, p1, md, rm, head, pfx, bitness, nfac) {
                Ok((mo, p2)) => {
                    lemma_rd8_bounds(b, start, p2);
                    lemma_rd16_bounds(b, start, p2);
                    lemma_rd32_bounds(b, start, p2);
                },
                _ => {},
            }
            lemma_rd8_bounds(b, start, p1);
            lemma_rd16_bounds(b, start, p1);
            lemma_rd32_bounds(b, start, p1);
        },
        _ => {},
    }
}

/// One form's case of `lemma_modrm_trunc`.
#[verifier::rlimit(100)]
#[verifier::spinoff_prover]
proof fn lemma_modrm_trunc_rmimm8(
    b: Seq<u8>,
    start: int,
    p: int,
    desc: Desc,
    head: Head,
    pfx: Prefixes,
    bitness: u32,
    ip: u64,
    k: int,
)
    requires
        0 <= start <= p <= k,
        k <= b.len(),
        p <= start + MAX_INSN_LEN,
        desc.form == OpsForm::RmImm8,
    ensures
        ops_modrm(b, start, p, desc, head, pfx, bitness, ip) matches Ok((i, q)) ==> {
            &&& q <= k ==> ops_modrm(b.take(k), start, p, desc, head, pfx, bitness, ip)
                == ops_modrm(b, start, p, desc, head, pfx, bitness, ip)
            &&& k < q ==> (ops_modrm(b.take(k), start, p, desc, head, pfx, bitness, ip)
                matches Err((e, qe)) && e == DecodeError::TruncatedInput && p <= qe < q)
        },
{
    lemma_rd8_trunc(b, start, p, k);
    lemma_rd8_bounds(b, start, p);
    match rd8(b, start, p) {
        Ok((m, p1)) => {
            let md = m >> 6;
            let rm = m & 7;
            let nfac = if desc.form == OpsForm::EvexRegRm || desc.form == OpsForm::EvexRegVvvvRm {
                tuple_n_spec(desc.tuple, head.w, head.bcst)
            } else {
                1u64
            };
            lemma_mem_bounds(b, start, p1, md, rm, head, pfx, bitness, nfac);
            if p1 <= k {
                lemma_mem_trunc(b, start, p1, md, rm, head, pfx, bitness, nfac, k);
                lemma_rd8_trunc(b, start, p1, k);
                lemma_rd16_trunc(b, start, p1, k);
                lemma_rd32_trunc(b, start, p1, k);
            }
            match mem_decode(b, start, p1, md, rm, head, pfx, bitness, nfac) {
                Ok((mo, p2)) => {
                    if p1 <= k && p2 <= k {
                        lemma_rd8_trunc(b, start, p2, k);
                        lemma_rd16_trunc(b, start, p2, k);
                        lemma_rd32_trunc(b, start, p2, k);
                    }
                    lemma_rd8_bounds(b, start, p2);
                    lemma_rd16_bounds(b, start, p2);
                    lemma_rd32_bounds(b, start, p2);
                },
                _ => {},
            }
            lemma_rd8_bounds(b, start, p1);
            lemma_rd16_bounds(b, start, p1);
            lemma_rd32_bounds(b, start, p1);
        },
        _ => {},
    }
}

/// One form's case of `lemma_modrm_bounds`.
#[verifier::rlimit(100)]
#[verifier::spinoff_prover]
proof fn lemma_modrm_bounds_poprmform(
    b: Seq<u8>,
    start: int,
    p: int,
    desc: Desc,
    head: Head,
    pfx: Prefixes,
    bitness: u32,
    ip: u64,
)
    requires
        0 <= start <= p <= b.len(),
        p <= start + MAX_INSN_LEN,
        desc.form == OpsForm::PopRmForm,
    ensures
        ops_modrm(b, start, p, desc, head, pfx, bitness, ip) matches Ok((i, q)) ==> {
            &&& p < q
            &&& q <= b.len() && q <= start + MAX_INSN_LEN
            &&& i.length == q - start
            &&& i.ip == ip
        },
        ops_modrm(b, start, p, desc, head, pfx, bitness, ip) matches Err((e, q)) ==>
            p <= q && q <= b.len() && q <= start + MAX_INSN_LEN,
{
    lemma_rd8_bounds(b, start, p);
    match rd8(b, start, p) {
        Ok((m, p1)) => {
            let md = m >> 6;
            let rm = m & 7;
            let nfac = if desc.form == OpsForm::EvexRegRm || desc.form == OpsForm::EvexRegVvvvRm {
                tuple_n_spec(desc.tuple, head.w, head.bcst)
            } else {
                1u64
            };
            lemma_mem_bounds(b, start, p1, md, rm, head, pfx, bitness, nfac);
            match mem_decode(b, start, p1, md, rm, head, pfx, bitness, nfac) {
                Ok((mo, p2)) => {
                    lemma_rd8_bounds(b, start, p2);
                    lemma_rd16_bounds(b, start, p2);
                    lemma_rd32_bounds(b, start, p2);
                },
                _ => {},
            }
            lemma_rd8_bounds(b, start, p1);
            lemma_rd16_bounds(b, start, p1);
            lemma_rd32_bounds(b, start, p1);
        },
        _ => {},
    }
}

/// One form's case of `lemma_modrm_trunc`.
#[verifier::rlimit(100)]
#[verifier::spinoff_prover]
proof fn lemma_modrm_trunc_poprmform(
    b: Seq<u8>,
    start: int,
    p: int,
    desc: Desc,
    head: Head,
    pfx: Prefixes,
    bitness: u32,
    ip: u64,
    k: int,
)
    requires
        0 <= start <= p <= k,
        k <= b.len(),
        p <= start + MAX_INSN_LEN,
        desc.form == OpsForm::PopRmForm,
    ensures
        ops_modrm(b, start, p, desc, head, pfx, bitness, ip) matches Ok((i, q)) ==> {
            &&& q <= k ==> ops_modrm(b.take(k), start, p, desc, head, pfx, bitness, ip)
                == ops_modrm(b, start, p, desc, head, pfx, bitness, ip)
            &&& k < q ==> (ops_modrm(b.take(k), start, p, desc, head, pfx, bitness, ip)
                matches Err((e, qe)) && e == DecodeError::TruncatedInput && p <= qe < q)
        },
{
    lemma_rd8_trunc(b, start, p, k);
    lemma_rd8_bounds(b, start, p);
    match rd8(b, start, p) {
        Ok((m, p1)) => {
            let md = m >> 6;
            let rm = m & 7;
            let nfac = if desc.form == OpsForm::EvexRegRm || desc.form == OpsForm::EvexRegVvvvRm {
                tuple_n_spec(desc.tuple, head.w, head.bcst)
            } else {
                1u64
            };
            lemma_mem_bounds(b, start, p1, md, rm, head, pfx, bitness, nfac);
            if p1 <= k {
                lemma_mem_trunc(b, start, p1, md, rm, head, pfx, bitness, nfac, k);
                lemma_rd8_trunc(b, start, p1, k);
                lemma_rd16_trunc(b, start, p1, k);
                lemma_rd32_trunc(b, start, p1, k);
            }
            match mem_decode(b, start, p1, md, rm, head, pfx, bitness, nfac) {
                Ok((mo, p2)) => {
                    if p1 <= k && p2 <= k {
                        lemma_rd8_trunc(b, start, p2, k);
                        lemma_rd16_trunc(b, start, p2, k);
                        lemma_rd32_trunc(b, start, p2, k);
                    }
                    lemma_rd8_bounds(b, start, p2);
                    lemma_rd16_bounds(b, start, p2);
                    lemma_rd32_bounds(b, start, p2);
                },
                _ => {},
            }
            lemma_rd8_bounds(b, start, p1);
            lemma_rd16_bounds(b, start, p1);
            lemma_rd32_bounds(b, start, p1);
        },
        _ => {},
    }
}

/// One form's case of `lemma_modrm_bounds`.
#[verifier::rlimit(100)]
#[verifier::spinoff_prover]
proof fn lemma_modrm_bounds_regmem(
    b: Seq<u8>,
    start: int,
    p: int,
    desc: Desc,
    head: Head,
    pfx: Prefixes,
    bitness: u32,
    ip: u64,
)
    requires
        0 <= start <= p <= b.len(),
        p <= start + MAX_INSN_LEN,
        desc.form == OpsForm::RegMem,
    ensures
        ops_modrm(b, start, p, desc, head, pfx, bitness, ip) matches Ok((i, q)) ==> {
            &&& p < q
            &&& q <= b.len() && q <= start + MAX_INSN_LEN
            &&& i.length == q - start
            &&& i.ip == ip
        },
        ops_modrm(b, start, p, desc, head, pfx, bitness, ip) matches Err((e, q)) ==>
            p <= q && q <= b.len() && q <= start + MAX_INSN_LEN,
{
    lemma_rd8_bounds(b, start, p);
    match rd8(b, start, p) {
        Ok((m, p1)) => {
            let md = m >> 6;
            let rm = m & 7;
            let nfac = if desc.form == OpsForm::EvexRegRm || desc.form == OpsForm::EvexRegVvvvRm {
                tuple_n_spec(desc.tuple, head.w, head.bcst)
            } else {
                1u64
            };
            lemma_mem_bounds(b, start, p1, md, rm, head, pfx, bitness, nfac);
            match mem_decode(b, start, p1, md, rm, head, pfx, bitness, nfac) {
                Ok((mo, p2)) => {
                    lemma_rd8_bounds(b, start, p2);
                    lemma_rd16_bounds(b, start, p2);
                    lemma_rd32_bounds(b, start, p2);
                },
                _ => {},
            }
            lemma_rd8_bounds(b, start, p1);
            lemma_rd16_bounds(b, start, p1);
            lemma_rd32_bounds(b, start, p1);
        },
        _ => {},
    }
}

/// One form's case of `lemma_modrm_trunc`.
#[verifier::rlimit(100)]
#[verifier::spinoff_prover]
proof fn lemma_modrm_trunc_regmem(
    b: Seq<u8>,
    start: int,
    p: int,
    desc: Desc,
    head: Head,
    pfx: Prefixes,
    bitness: u32,
    ip: u64,
    k: int,
)
    requires
        0 <= start <= p <= k,
        k <= b.len(),
        p <= start + MAX_INSN_LEN,
        desc.form == OpsForm::RegMem,
    ensures
        ops_modrm(b, start, p, desc, head, pfx, bitness, ip) matches Ok((i, q)) ==> {
            &&& q <= k ==> ops_modrm(b.take(k), start, p, desc, head, pfx, bitness, ip)
                == ops_modrm(b, start, p, desc, head, pfx, bitness, ip)
            &&& k < q ==> (ops_modrm(b.take(k), start, p, desc, head, pfx, bitness, ip)
                matches Err((e, qe)) && e == DecodeError::TruncatedInput && p <= qe < q)
        },
{
    lemma_rd8_trunc(b, start, p, k);
    lemma_rd8_bounds(b, start, p);
    match rd8(b, start, p) {
        Ok((m, p1)) => {
            let md = m >> 6;
            let rm = m & 7;
            let nfac = if desc.form == OpsForm::EvexRegRm || desc.form == OpsForm::EvexRegVvvvRm {
                tuple_n_spec(desc.tuple, head.w, head.bcst)
            } else {
                1u64
            };
            lemma_mem_bounds(b, start, p1, md, rm, head, pfx, bitness, nfac);
            if p1 <= k {
                lemma_mem_trunc(b, start, p1, md, rm, head, pfx, bitness, nfac, k);
                lemma_rd8_trunc(b, start, p1, k);
                lemma_rd16_trunc(b, start, p1, k);
                lemma_rd32_trunc(b, start, p1, k);
            }
            match mem_decode(b, start, p1, md, rm, head, pfx, bitness, nfac) {
                Ok((mo, p2)) => {
                    if p1 <= k && p2 <= k {
                        lemma_rd8_trunc(b, start, p2, k);
                        lemma_rd16_trunc(b, start, p2, k);
                        lemma_rd32_trunc(b, start, p2, k);
                    }
                    lemma_rd8_bounds(b, start, p2);
                    lemma_rd16_bounds(b, start, p2);
                    lemma_rd32_bounds(b, start, p2);
                },
                _ => {},
            }
            lemma_rd8_bounds(b, start, p1);
            lemma_rd16_bounds(b, start, p1);
            lemma_rd32_bounds(b, start, p1);
        },
        _ => {},
    }
}

/// One form's case of `lemma_modrm_bounds`.
#[verifier::rlimit(100)]
#[verifier::spinoff_prover]
proof fn lemma_modrm_bounds_vregrm(
    b: Seq<u8>,
    start: int,
    p: int,
    desc: Desc,
    head: Head,
    pfx: Prefixes,
    bitness: u32,
    ip: u64,
)
    requires
        0 <= start <= p <= b.len(),
        p <= start + MAX_INSN_LEN,
        desc.form == OpsForm::VRegRm,
    ensures
        ops_modrm(b, start, p, desc, head, pfx, bitness, ip) matches Ok((i, q)) ==> {
            &&& p < q
            &&& q <= b.len() && q <= start + MAX_INSN_LEN
            &&& i.length == q - start
            &&& i.ip == ip
        },
        ops_modrm(b, start, p, desc, head, pfx, bitness, ip) matches Err((e, q)) ==>
            p <= q && q <= b.len() && q <= start + MAX_INSN_LEN,
{
    lemma_rd8_bounds(b, start, p);
    match rd8(b, start, p) {
        Ok((m, p1)) => {
            let md = m >> 6;
            let rm = m & 7;
            let nfac = if desc.form == OpsForm::EvexRegRm || desc.form == OpsForm::EvexRegVvvvRm {
                tuple_n_spec(desc.tuple, head.w, head.bcst)
            } else {
                1u64
            };
            lemma_mem_bounds(b, start, p1, md, rm, head, pfx, bitness, nfac);
            match mem_decode(b, start, p1, md, rm, head, pfx, bitness, nfac) {
                Ok((mo, p2)) => {
                    lemma_rd8_bounds(b, start, p2);
                    lemma_rd16_bounds(b, start, p2);
                    lemma_rd32_bounds(b, start, p2);
                },
                _ => {},
            }
            lemma_rd8_bounds(b, start, p1);
            lemma_rd16_bounds(b, start, p1);
            lemma_rd32_bounds(b, start, p1);
        },
        _ => {},
    }
}

/// One form's case of `lemma_modrm_trunc`.
#[verifier::rlimit(100)]
#[verifier::spinoff_prover]
proof fn lemma_modrm_trunc_vregrm(
    b: Seq<u8>,
    start: int,
    p: int,
    desc: Desc,
    head: Head,
    pfx: Prefixes,
    bitness: u32,
    ip: u64,
    k: int,
)
    requires
        0 <= start <= p <= k,
        k <= b.len(),
        p <= start + MAX_INSN_LEN,
        desc.form == OpsForm::VRegRm,
    ensures
        ops_modrm(b, start, p, desc, head, pfx, bitness, ip) matches Ok((i, q)) ==> {
            &&& q <= k ==> ops_modrm(b.take(k), start, p, desc, head, pfx, bitness, ip)
                == ops_modrm(b, start, p, desc, head, pfx, bitness, ip)
            &&& k < q ==> (ops_modrm(b.take(k), start, p, desc, head, pfx, bitness, ip)
                matches Err((e, qe)) && e == DecodeError::TruncatedInput && p <= qe < q)
        },
{
    lemma_rd8_trunc(b, start, p, k);
    lemma_rd8_bounds(b, start, p);
    match rd8(b, start, p) {
        Ok((m, p1)) => {
            let md = m >> 6;
            let rm = m & 7;
            let nfac = if desc.form == OpsForm::EvexRegRm || desc.form == OpsForm::EvexRegVvvvRm {
                tuple_n_spec(desc.tuple, head.w, head.bcst)
            } else {
                1u64
            };
            lemma_mem_bounds(b, start, p1, md, rm, head, pfx, bitness, nfac);
            if p1 <= k {
                lemma_mem_trunc(b, start, p1, md, rm, head, pfx, bitness, nfac, k);
                lemma_rd8_trunc(b, start, p1, k);
                lemma_rd16_trunc(b, start, p1, k);
                lemma_rd32_trunc(b, start, p1, k);
            }
            match mem_decode(b, start, p1, md, rm, head, pfx, bitness, nfac) {
                Ok((mo, p2)) => {
                    if p1 <= k && p2 <= k {
                        lemma_rd8_trunc(b, start, p2, k);
                        lemma_rd16_trunc(b, start, p2, k);
                        lemma_rd32_trunc(b, start, p2, k);
                    }
                    lemma_rd8_bounds(b, start, p2);
                    lemma_rd16_bounds(b, start, p2);
                    lemma_rd32_bounds(b, start, p2);
                },
                _ => {},
            }
            lemma_rd8_bounds(b, start, p1);
            lemma_rd16_bounds(b, start, p1);
            lemma_rd32_bounds(b, start, p1);
        },
        _ => {},
    }
}

/// One form's case of `lemma_modrm_bounds`.
#[verifier::rlimit(100)]
#[verifier::spinoff_prover]
proof fn lemma_modrm_bounds_evexregrm(
    b: Seq<u8>,
    start: int,
    p: int,
    desc: Desc,
    head: Head,
    pfx: Prefixes,
    bitness: u32,
    ip: u64,
)
    requires
        0 <= start <= p <= b.len(),
        p <= start + MAX_INSN_LEN,
        desc.form == OpsForm::EvexRegRm,
    ensures
        ops_modrm(b, start, p, desc, head, pfx, bitness, ip) matches Ok((i, q)) ==> {
            &&& p < q
            &&& q <= b.len() && q <= start + MAX_INSN_LEN
            &&& i.length == q - start
            &&& i.ip == ip
        },
        ops_modrm(b, start, p, desc, head, pfx, bitness, ip) matches Err((e, q)) ==>
            p <= q && q <= b.len() && q <= start + MAX_INSN_LEN,
{
    lemma_rd8_bounds(b, start, p);
    match rd8(b, start, p) {
        Ok((m, p1)) => {
            let md = m >> 6;
            let rm = m & 7;
            let nfac = if desc.form == OpsForm::EvexRegRm || desc.form == OpsForm::EvexRegVvvvRm {
                tuple_n_spec(desc.tuple, head.w, head.bcst)
            } else {
                1u64
            };
            lemma_mem_bounds(b, start, p1, md, rm, head, pfx, bitness, nfac);
            match mem_decode(b, start, p1, md, rm, head, pfx, bitness, nfac) {
                Ok((mo, p2)) => {
                    lemma_rd8_bounds(b, start, p2);
                    lemma_rd16_bounds(b, start, p2);
                    lemma_rd32_bounds(b, start, p2);
                },
                _ => {},
            }
            lemma_rd8_bounds(b, start, p1);
            lemma_rd16_bounds(b, start, p1);
            lemma_rd32_bounds(b, start, p1);
        },
        _ => {},
    }
}

/// One form's case of `lemma_modrm_trunc`.
#[verifier::rlimit(100)]
#[verifier::spinoff_prover]
proof fn lemma_modrm_trunc_evexregrm(
    b: Seq<u8>,
    start: int,
    p: int,
    desc: Desc,
    head: Head,
    pfx: Prefixes,
    bitness: u32,
    ip: u64,
    k: int,
)
    requires
        0 <= start <= p <= k,
        k <= b.len(),
        p <= start + MAX_INSN_LEN,
        desc.form == OpsForm::EvexRegRm,
    ensures
        ops_modrm(b, start, p, desc, head, pfx, bitness, ip) matches Ok((i, q)) ==> {
            &&& q <= k ==> ops_modrm(b.take(k), start, p, desc, head, pfx, bitness, ip)
                == ops_modrm(b, start, p, desc, head, pfx, bitness, ip)
            &&& k < q ==> (ops_modrm(b.take(k), start, p, desc, head, pfx, bitness, ip)
                matches Err((e, qe)) && e == DecodeError::TruncatedInput && p <= qe < q)
        },
{
    lemma_rd8_trunc(b, start, p, k);
    lemma_rd8_bounds(b, start, p);
    match rd8(b, start, p) {
        Ok((m, p1)) => {
            let md = m >> 6;
            let rm = m & 7;
            let nfac = if desc.form == OpsForm::EvexRegRm || desc.form == OpsForm::EvexRegVvvvRm {
                tuple_n_spec(desc.tuple, head.w, head.bcst)
            } else {
                1u64
            };
            lemma_mem_bounds(b, start, p1, md, rm, head, pfx, bitness, nfac);
            if p1 <= k {
                lemma_mem_trunc(b, start, p1, md, rm, head, pfx, bitness, nfac, k);
                lemma_rd8_trunc(b, start, p1, k);
                lemma_rd16_trunc(b, start, p1, k);
                lemma_rd32_trunc(b, start, p1, k);
            }
            match mem_decode(b, start, p1, md, rm, head, pfx, bitness, nfac) {
                Ok((mo, p2)) => {
                    if p1 <= k && p2 <= k {
                        lemma_rd8_trunc(b, start, p2, k);
                        lemma_rd16_trunc(b, start, p2, k);
                        lemma_rd32_trunc(b, start, p2, k);
                    }
                    lemma_rd8_bounds(b, start, p2);
                    lemma_rd16_bounds(b, start, p2);
                    lemma_rd32_bounds(b, start, p2);
                },
                _ => {},
            }
            lemma_rd8_bounds(b, start, p1);
            lemma_rd16_bounds(b, start, p1);
            lemma_rd32_bounds(b, start, p1);
        },
        _ => {},
    }
}

/// One form's case of `lemma_modrm_bounds`.
#[verifier::rlimit(100)]
#[verifier::spinoff_prover]
proof fn lemma_modrm_bounds_evexregvvvvrm(
    b: Seq<u8>,
    start: int,
    p: int,
    desc: Desc,
    head: Head,
    pfx: Prefixes,
    bitness: u32,
    ip: u64,
)
    requires
        0 <= start <= p <= b.len(),
        p <= start + MAX_INSN_LEN,
        desc.form == OpsForm::EvexRegVvvvRm,
    ensures
        ops_modrm(b, start, p, desc, head, pfx, bitness, ip) matches Ok((i, q)) ==> {
            &&& p < q
            &&& q <= b.len() && q <= start + MAX_INSN_LEN
            &&& i.length == q - start
            &&& i.ip == ip
        },
        ops_modrm(b, start, p, desc, head, pfx, bitness, ip) matches Err((e, q)) ==>
            p <= q && q <= b.len() && q <= start + MAX_INSN_LEN,
{
    lemma_rd8_bounds(b, start, p);
    match rd8(b, start, p) {
        Ok((m, p1)) => {
            let md = m >> 6;
            let rm = m & 7;
            let nfac = if desc.form == OpsForm::EvexRegRm || desc.form == OpsForm::EvexRegVvvvRm {
                tuple_n_spec(desc.tuple, head.w, head.bcst)
            } else {
                1u64
            };
            lemma_mem_bounds(b, start, p1, md, rm, head, pfx, bitness, nfac);
            match mem_decode(b, start, p1, md, rm, head, pfx, bitness, nfac) {
                Ok((mo, p2)) => {
                    lemma_rd8_bounds(b, start, p2);
                    lemma_rd16_bounds(b, start, p2);
                    lemma_rd32_bounds(b, start, p2);
                },
                _ => {},
            }
            lemma_rd8_bounds(b, start, p1);
            lemma_rd16_bounds(b, start, p1);
            lemma_rd32_bounds(b, start, p1);
        },
        _ => {},
    }
}

/// One form's case of `lemma_modrm_trunc`.
#[verifier::rlimit(100)]
#[verifier::spinoff_prover]
proof fn lemma_modrm_trunc_evexregvvvvrm(
    b: Seq<u8>,
    start: int,
    p: int,
    desc: Desc,
    head: Head,
    pfx: Prefixes,
    bitness: u32,
    ip: u64,
    k: int,
)
    requires
        0 <= start <= p <= k,
        k <= b.len(),
        p <= start + MAX_INSN_LEN,
        desc.form == OpsForm::EvexRegVvvvRm,
    ensures
        ops_modrm(b, start, p, desc, head, pfx, bitness, ip) matches Ok((i, q)) ==> {
            &&& q <= k ==> ops_modrm(b.take(k), start, p, desc, head, pfx, bitness, ip)
                == ops_modrm(b, start, p, desc, head, pfx, bitness, ip)
            &&& k < q ==> (ops_modrm(b.take(k), start, p, desc, head, pfx, bitness, ip)
                matches Err((e, qe)) && e == DecodeError::TruncatedInput && p <= qe < q)
        },
{
    lemma_rd8_trunc(b, start, p, k);
    lemma_rd8_bounds(b, start, p);
    match rd8(b, start, p) {
        Ok((m, p1)) => {
            let md = m >> 6;
            let rm = m & 7;
            let nfac = if desc.form == OpsForm::EvexRegRm || desc.form == OpsForm::EvexRegVvvvRm {
                tuple_n_spec(desc.tuple, head.w, head.bcst)
            } else {
                1u64
            };
            lemma_mem_bounds(b, start, p1, md, rm, head, pfx, bitness, nfac);
            if p1 <= k {
                lemma_mem_trunc(b, start, p1, md, rm, head, pfx, bitness, nfac, k);
                lemma_rd8_trunc(b, start, p1, k);
                lemma_rd16_trunc(b, start, p1, k);
                lemma_rd32_trunc(b, start, p1, k);
            }
            match mem_decode(b, start, p1, md, rm, head, pfx, bitness, nfac) {
                Ok((mo, p2)) => {
                    if p1 <= k && p2 <= k {
                        lemma_rd8_trunc(b, start, p2, k);
                        lemma_rd16_trunc(b, start, p2, k);
                        lemma_rd32_trunc(b, start, p2, k);
                    }
                    lemma_rd8_bounds(b, start, p2);
                    lemma_rd16_bounds(b, start, p2);
                    lemma_rd32_bounds(b, start, p2);
                },
                _ => {},
            }
            lemma_rd8_bounds(b, start, p1);
            lemma_rd16_bounds(b, start, p1);
            lemma_rd32_bounds(b, start, p1);
        },
        _ => {},
    }
}

/// Position bounds of the ModRM-form operand decoder.
#[verifier::rlimit(100)]
#[verifier::spinoff_prover]
pub proof fn lemma_modrm_bounds(
    b: Seq<u8>,
    start: int,
    p: int,
    desc: Desc,
    head: Head,
    pfx: Prefixes,
    bitness: u32,
    ip: u64,
)
    requires
        0 <= start <= p <= b.len(),
        p <= start + MAX_INSN_LEN,
    ensures
        ops_modrm(b, start, p, desc, head, pfx, bitness, ip) matches Ok((i, q)) ==> {
            &&& p < q
            &&& q <= b.len() && q <= start + MAX_INSN_LEN
            &&& i.length == q - start
            &&& i.ip == ip
        },
        ops_modrm(b, start, p, desc, head, pfx, bitness, ip) matches Err((e, q)) ==>
            p <= q && q <= b.len() && q <= start + MAX_INSN_LEN,
{
    match desc.form {
        OpsForm::RmReg => lemma_modrm_bounds_rmreg(b, start, p, desc, head, pfx, bitness, ip),
        OpsForm::RegRm => lemma_modrm_bounds_regrm(b, start, p, desc, head, pfx, bitness, ip),
        OpsForm::RmImm => lemma_modrm_bounds_rmimm(b, start, p, desc, head, pfx, bitness, ip),
        OpsForm::RmImm8 => lemma_modrm_bounds_rmimm8(b, start, p, desc, head, pfx, bitness, ip),
        OpsForm::PopRmForm => lemma_modrm_bounds_poprmform(b, start, p, desc, head, pfx, bitness, ip),
        OpsForm::RegMem => lemma_modrm_bounds_regmem(b, start, p, desc, head, pfx, bitness, ip),
        OpsForm::VRegRm => lemma_modrm_bounds_vregrm(b, start, p, desc, head, pfx, bitness, ip),
        OpsForm::EvexRegRm => lemma_modrm_bounds_evexregrm(b, start, p, desc, head, pfx, bitness, ip),
        OpsForm::EvexRegVvvvRm => lemma_modrm_bounds_evexregvvvvrm(b, start, p, desc, head, pfx, bitness, ip),
        _ => {},
    }

}

/// Truncation behaviour of the ModRM-form operand decoder.
#[verifier::rlimit(100)]
#[verifier::spinoff_prover]
pub proof fn lemma_modrm_trunc(
    b: Seq<u8>,
    start: int,
    p: int,
    desc: Desc,
    head: Head,
    pfx: Prefixes,
    bitness: u32,
    ip: u64,
    k: int,
)
    requires
        0 <= start <= p <= k,
        k <= b.len(),
        p <= start + MAX_INSN_LEN,
    ensures
        ops_modrm(b, start, p, desc, head, pfx, bitness, ip) matches Ok((i, q)) ==> {
            &&& q <= k ==> ops_modrm(b.take(k), start, p, desc, head, pfx, bitness, ip)
                == ops_modrm(b, start, p, desc, head, pfx, bitness, ip)
            &&& k < q ==> (ops_modrm(b.take(k), start, p, desc, head, pfx, bitness, ip)
                matches Err((e, qe)) && e == DecodeError::TruncatedInput && p <= qe < q)
        },
{
    match desc.form {
        OpsForm::RmReg => lemma_modrm_trunc_rmreg(b, start, p, desc, head, pfx, bitness, ip, k),
        OpsForm::RegRm => lemma_modrm_trunc_regrm(b, start, p, desc, head, pfx, bitness, ip, k),
        OpsForm::RmImm => lemma_modrm_trunc_rmimm(b, start, p, desc, head, pfx, bitness, ip, k),
        OpsForm::RmImm8 => lemma_modrm_trunc_rmimm8(b, start, p, desc, head, pfx, bitness, ip, k),
        OpsForm::PopRmForm => lemma_modrm_trunc_poprmform(b, start, p, desc, head, pfx, bitness, ip, k),
        OpsForm::RegMem => lemma_modrm_trunc_regmem(b, start, p, desc, head, pfx, bitness, ip, k),
        OpsForm::VRegRm => lemma_modrm_trunc_vregrm(b, start, p, desc, head, pfx, bitness, ip, k),
        OpsForm::EvexRegRm => lemma_modrm_trunc_evexregrm(b, start, p, desc, head, pfx, bitness, ip, k),
        OpsForm::EvexRegVvvvRm => lemma_modrm_trunc_evexregvvvvrm(b, start, p, desc, head, pfx, bitness, ip, k),
        _ => {},
    }

}

/// Position bounds of the operand decoder, and that the finished record's
/// length is the distance from the instruction start.
#[verifier::rlimit(100)]
#[verifier::spinoff_prover]
pub proof fn lemma_ops_bounds(
    b: Seq<u8>,
    start: int,
    p: int,
    desc: Desc,
    head: Head,
    pfx: Prefixes,
    bitness: u32,
    ip: u64,
)
    requires
        0 <= start <= p <= b.len(),
        p <= start + MAX_INSN_LEN,
    ensures
        decode_operands(b, start, p, desc, head, pfx, bitness, ip) matches Ok((i, q)) ==> {
            &&& p <= q && q <= b.len() && q <= start + MAX_INSN_LEN
            &&& i.length == q - start
            &&& i.ip == ip
        },
        decode_operands(b, start, p, desc, head, pfx, bitness, ip) matches Err((e, q)) ==>
            p <= q && q <= b.len() && q <= start + MAX_INSN_LEN,
{
    lemma_modrm_bounds(b, start, p, desc, head, pfx, bitness, ip);
    lemma_rd8_bounds(b, start, p);
    lemma_rd16_bounds(b, start, p);
    lemma_rd32_bounds(b, start, p);
    lemma_rd64_bounds(b, start, p);
    match rd16(b, start, p) {
        Ok((v, p1)) => {
            lemma_rd8_bounds(b, start, p1);
            lemma_rd16_bounds(b, start, p1);
        },
        _ => {},
    }
    match rd32(b, start, p) {
        Ok((v, p1)) => {
            lemma_rd16_bounds(b, start, p1);
        },
        _ => {},
    }
}

/// One form's case of `lemma_ops_trunc`.
#[verifier::rlimit(100)]
#[verifier::spinoff_prover]
proof fn lemma_ops_trunc_noops(
    b: Seq<u8>,
    start: int,
    p: int,
    desc: Desc,
    head: Head,
    pfx: Prefixes,
    bitness: u32,
    ip: u64,
    k: int,
)
    requires
        0 <= start <= p <= k,
        k <= b.len(),
        p <= start + MAX_INSN_LEN,
        desc.form == OpsForm::NoOps,
    ensures
        decode_operands(b, start, p, desc, head, pfx, bitness, ip) matches Ok((i, q)) ==> {
            &&& q <= k ==> decode_operands(b.take(k), start, p, desc, head, pfx, bitness, ip)
                == decode_operands(b, start, p, desc, head, pfx, bitness, ip)
            &&& k < q ==> (decode_operands(b.take(k), start, p, desc, head, pfx, bitness, ip)
                matches Err((e, qe)) && e == DecodeError::TruncatedInput && p <= qe < q)
        },
{
    lemma_modrm_trunc(b, start, p, desc, head, pfx, bitness, ip, k);
    lemma_modrm_bounds(b, start, p, desc, head, pfx, bitness, ip);
    lemma_rd8_trunc(b, start, p, k);
    lemma_rd16_trunc(b, start, p, k);
    lemma_rd32_trunc(b, start, p, k);
    lemma_rd64_trunc(b, start, p, k);
    lemma_rd8_bounds(b, start, p);
    lemma_rd16_bounds(b, start, p);
    lemma_rd32_bounds(b, start, p);
    lemma_rd64_bounds(b, start, p);
    match rd16(b, start, p) {
        Ok((v, p1)) => {
            lemma_rd8_trunc(b, start, p1, k);
            lemma_rd16_trunc(b, start, p1, k);
            lemma_rd8_bounds(b, start, p1);
            lemma_rd16_bounds(b, start, p1);
        },
        _ => {},
    }
    match rd32(b, start, p) {
        Ok((v, p1)) => {
            lemma_rd16_trunc(b, start, p1, k);
            lemma_rd16_bounds(b, start, p1);
        },
        _ => {},
    }
}

/// One form's case of `lemma_ops_trunc`.
#[verifier::rlimit(100)]
#[verifier::spinoff_prover]
proof fn lemma_ops_trunc_stringmovs(
    b: Seq<u8>,
    start: int,
    p: int,
    desc: Desc,
    head: Head,
    pfx: Prefixes,
    bitness: u32,
    ip: u64,
    k: int,
)
    requires
        0 <= start <= p <= k,
        k <= b.len(),
        p <= start + MAX_INSN_LEN,
        desc.form == OpsForm::StringMovs,
    ensures
        decode_operands(b, start, p, desc, head, pfx, bitness, ip) matches Ok((i, q)) ==> {
            &&& q <= k ==> decode_operands(b.take(k), start, p, desc, head, pfx, bitness, ip)
                == decode_operands(b, start, p, desc, head, pfx, bitness, ip)
            &&& k < q ==> (decode_operands(b.take(k), start, p, desc, head, pfx, bitness, ip)
                matches Err((e, qe)) && e == DecodeError::TruncatedInput && p <= qe < q)
        },
{
    lemma_modrm_trunc(b, start, p, desc, head, pfx, bitness, ip, k);
    lemma_modrm_bounds(b, start, p, desc, head, pfx, bitness, ip);
    lemma_rd8_trunc(b, start, p, k);
    lemma_rd16_trunc(b, start, p, k);
    lemma_rd32_trunc(b, start, p, k);
    lemma_rd64_trunc(b, start, p, k);
    lemma_rd8_bounds(b, start, p);
    lemma_rd16_bounds(b, start, p);
    lemma_rd32_bounds(b, start, p);
    lemma_rd64_bounds(b, start, p);
    match rd16(b, start, p) {
        Ok((v, p1)) => {
            lemma_rd8_trunc(b, start, p1, k);
            lemma_rd16_trunc(b, start, p1, k);
            lemma_rd8_bounds(b, start, p1);
            lemma_rd16_bounds(b, start, p1);
        },
        _ => {},
    }
    match rd32(b, start, p) {
        Ok((v, p1)) => {
            lemma_rd16_trunc(b, start, p1, k);
            lemma_rd16_bounds(b, start, p1);
        },
        _ => {},
    }
}

/// One form's case of `lemma_ops_trunc`.
#[verifier::rlimit(100)]
#[verifier::spinoff_prover]
proof fn lemma_ops_trunc_regopimm(
    b: Seq<u8>,
    start: int,
    p: int,
    desc: Desc,
    head: Head,
    pfx: Prefixes,
    bitness: u32,
    ip: u64,
    k: int,
)
    requires
        0 <= start <= p <= k,
        k <= b.len(),
        p <= start + MAX_INSN_LEN,
        desc.form == OpsForm::RegOpImm,
    ensures
        decode_operands(b, start, p, desc, head, pfx, bitness, ip) matches Ok((i, q)) ==> {
            &&& q <= k ==> decode_operands(b.take(k), start, p, desc, head, pfx, bitness, ip)
                == decode_operands(b, start, p, desc, head, pfx, bitness, ip)
            &&& k < q ==> (decode_operands(b.take(k), start, p, desc, head, pfx, bitness, ip)
                matches Err((e, qe)) && e == DecodeError::TruncatedInput && p <= qe < q)
        },
{
    lemma_modrm_trunc(b, start, p, desc, head, pfx, bitness, ip, k);
    lemma_modrm_bounds(b, start, p, desc, head, pfx, bitness, ip);
    lemma_rd8_trunc(b, start, p, k);
    lemma_rd16_trunc(b, start, p, k);
    lemma_rd32_trunc(b, start, p, k);
    lemma_rd64_trunc(b, start, p, k);
    lemma_rd8_bounds(b, start, p);
    lemma_rd16_bounds(b, start, p);
    lemma_rd32_bounds(b, start, p);
    lemma_rd64_bounds(b, start, p);
    match rd16(b, start, p) {
        Ok((v, p1)) => {
            lemma_rd8_trunc(b, start, p1, k);
            lemma_rd16_trunc(b, start, p1, k);
            lemma_rd8_bounds(b, start, p1);
            lemma_rd16_bounds(b, start, p1);
        },
        _ => {},
    }
    match rd32(b, start, p) {
        Ok((v, p1)) => {
            lemma_rd16_trunc(b, start, p1, k);
            lemma_rd16_bounds(b, start, p1);
        },
        _ => {},
    }
}

/// One form's case of `lemma_ops_trunc`.
#[verifier::rlimit(100)]
#[verifier::spinoff_prover]
proof fn lemma_ops_trunc_relbranch(
    b: Seq<u8>,
    start: int,
    p: int,
    desc: Desc,
    head: Head,
    pfx: Prefixes,
    bitness: u32,
    ip: u64,
    k: int,
)
    requires
        0 <= start <= p <= k,
        k <= b.len(),
        p <= start + MAX_INSN_LEN,
        desc.form == OpsForm::RelBranch,
    ensures
        decode_operands(b, start, p, desc, head, pfx, bitness, ip) matches Ok((i, q)) ==> {
            &&& q <= k ==> decode_operands(b.take(k), start, p, desc, head, pfx, bitness, ip)
                == decode_operands(b, start, p, desc, head, pfx, bitness, ip)
            &&& k < q ==> (decode_operands(b.take(k), start, p, desc, head, pfx, bitness, ip)
                matches Err((e, qe)) && e == DecodeError::TruncatedInput && p <= qe < q)
        },
{
    lemma_modrm_trunc(b, start, p, desc, head, pfx, bitness, ip, k);
    lemma_modrm_bounds(b, start, p, desc, head, pfx, bitness, ip);
    lemma_rd8_trunc(b, start, p, k);
    lemma_rd16_trunc(b, start, p, k);
    lemma_rd32_trunc(b, start, p, k);
    lemma_rd64_trunc(b, start, p, k);
    lemma_rd8_bounds(b, start, p);
    lemma_rd16_bounds(b, start, p);
    lemma_rd32_bounds(b, start, p);
    lemma_rd64_bounds(b, start, p);
    match rd16(b, start, p) {
        Ok((v, p1)) => {
            lemma_rd8_trunc(b, start, p1, k);
            lemma_rd16_trunc(b, start, p1, k);
            lemma_rd8_bounds(b, start, p1);
            lemma_rd16_bounds(b, start, p1);
        },
        _ => {},
    }
    match rd32(b, start, p) {
        Ok((v, p1)) => {
            lemma_rd16_trunc(b, start, p1, k);
            lemma_rd16_bounds(b, start, p1);
        },
        _ => {},
    }
}

/// One form's case of `lemma_ops_trunc`.
#[verifier::rlimit(100)]
#[verifier::spinoff_prover]
proof fn lemma_ops_trunc_relbranch8(
    b: Seq<u8>,
    start: int,
    p: int,
    desc: Desc,
    head: Head,
    pfx: Prefixes,
    bitness: u32,
    ip: u64,
    k: int,
)
    requires
        0 <= start <= p <= k,
        k <= b.len(),
        p <= start + MAX_INSN_LEN,
        desc.form == OpsForm::RelBranch8,
    ensures
        decode_operands(b, start, p, desc, head, pfx, bitness, ip) matches Ok((i, q)) ==> {
            &&& q <= k ==> decode_operands(b.take(k), start, p, desc, head, pfx, bitness, ip)
                == decode_operands(b, start, p, desc, head, pfx, bitness, ip)
            &&& k < q ==> (decode_operands(b.take(k), start, p, desc, head, pfx, bitness, ip)
                matches Err((e, qe)) && e == DecodeError::TruncatedInput && p <= qe < q)
        },
{
    lemma_modrm_trunc(b, start, p, desc, head, pfx, bitness, ip, k);
    lemma_modrm_bounds(b, start, p, desc, head, pfx, bitness, ip);
    lemma_rd8_trunc(b, start, p, k);
    lemma_rd16_trunc(b, start, p, k);
    lemma_rd32_trunc(b, start, p, k);
    lemma_rd64_trunc(b, start, p, k);
    lemma_rd8_bounds(b, start, p);
    lemma_rd16_bounds(b, start, p);
    lemma_rd32_bounds(b, start, p);
    lemma_rd64_bounds(b, start, p);
    match rd16(b, start, p) {
        Ok((v, p1)) => {
            lemma_rd8_trunc(b, start, p1, k);
            lemma_rd16_trunc(b, start, p1, k);
            lemma_rd8_bounds(b, start, p1);
            lemma_rd16_bounds(b, start, p1);
        },
        _ => {},
    }
    match rd32(b, start, p) {
        Ok((v, p1)) => {
            lemma_rd16_trunc(b, start, p1, k);
            lemma_rd16_bounds(b, start, p1);
        },
        _ => {},
    }
}

/// One form's case of `lemma_ops_trunc`.
#[verifier::rlimit(100)]
#[verifier::spinoff_prover]
proof fn lemma_ops_trunc_farbranch(
    b: Seq<u8>,
    start: int,
    p: int,
    desc: Desc,
    head: Head,
    pfx: Prefixes,
    bitness: u32,
    ip: u64,
    k: int,
)
    requires
        0 <= start <= p <= k,
        k <= b.len(),
        p <= start + MAX_INSN_LEN,
        desc.form == OpsForm::FarBranch,
    ensures
        decode_operands(b, start, p, desc, head, pfx, bitness, ip) matches Ok((i, q)) ==> {
            &&& q <= k ==> decode_operands(b.take(k), start, p, desc, head, pfx, bitness, ip)
                == decode_operands(b, start, p, desc, head, pfx, bitness, ip)
            &&& k < q ==> (decode_operands(b.take(k), start, p, desc, head, pfx, bitness, ip)
                matches Err((e, qe)) && e == DecodeError::TruncatedInput && p <= qe < q)
        },
{
    lemma_modrm_trunc(b, start, p, desc, head, pfx, bitness, ip, k);
    lemma_modrm_bounds(b, start, p, desc, head, pfx, bitness, ip);
    lemma_rd8_trunc(b, start, p, k);
    lemma_rd16_trunc(b, start, p, k);
    lemma_rd32_trunc(b, start, p, k);
    lemma_rd64_trunc(b, start, p, k);
    lemma_rd8_bounds(b, start, p);
    lemma_rd16_bounds(b, start, p);
    lemma_rd32_bounds(b, start, p);
    lemma_rd64_bounds(b, start, p);
    match rd16(b, start, p) {
        Ok((v, p1)) => {
            lemma_rd8_trunc(b, start, p1, k);
            lemma_rd16_trunc(b, start, p1, k);
            lemma_rd8_bounds(b, start, p1);
            lemma_rd16_bounds(b, start, p1);
        },
        _ => {},
    }
    match rd32(b, start, p) {
        Ok((v, p1)) => {
            lemma_rd16_trunc(b, start, p1, k);
            lemma_rd16_bounds(b, start, p1);
        },
        _ => {},
    }
}

/// One form's case of `lemma_ops_trunc`.
#[verifier::rlimit(100)]
#[verifier::spinoff_prover]
proof fn lemma_ops_trunc_enterimm(
    b: Seq<u8>,
    start: int,
    p: int,
    desc: Desc,
    head: Head,
    pfx: Prefixes,
    bitness: u32,
    ip: u64,
    k: int,
)
    requires
        0 <= start <= p <= k,
        k <= b.len(),
        p <= start + MAX_INSN_LEN,
        desc.form == OpsForm::EnterImm,
    ensures
        decode_operands(b, start, p, desc, head, pfx, bitness, ip) matches Ok((i, q)) ==> {
            &&& q <= k ==> decode_operands(b.take(k), start, p, desc, head, pfx, bitness, ip)
                == decode_operands(b, start, p, desc, head, pfx, bitness, ip)
            &&& k < q ==> (decode_operands(b.take(k), start, p, desc, head, pfx, bitness, ip)
                matches Err((e, qe)) && e == DecodeError::TruncatedInput && p <= qe < q)
        },
{
    lemma_modrm_trunc(b, start, p, desc, head, pfx, bitness, ip, k);
    lemma_modrm_bounds(b, start, p, desc, head, pfx, bitness, ip);
    lemma_rd8_trunc(b, start, p, k);
    lemma_rd16_trunc(b, start, p, k);
    lemma_rd32_trunc(b, start, p, k);
    lemma_rd64_trunc(b, start, p, k);
    lemma_rd8_bounds(b, start, p);
    lemma_rd16_bounds(b, start, p);
    lemma_rd32_bounds(b, start, p);
    lemma_rd64_bounds(b, start, p);
    match rd16(b, start, p) {
        Ok((v, p1)) => {
            lemma_rd8_trunc(b, start, p1, k);
            lemma_rd16_trunc(b, start, p1, k);
            lemma_rd8_bounds(b, start, p1);
            lemma_rd16_bounds(b, start, p1);
        },
        _ => {},
    }
    match rd32(b, start, p) {
        Ok((v, p1)) => {
            lemma_rd16_trunc(b, start, p1, k);
            lemma_rd16_bounds(b, start, p1);
        },
        _ => {},
    }
}

/// Truncation behaviour of the operand decoder: cutting the input before
/// the end of the instruction turns success into a truncation failure.
#[verifier::rlimit(100)]
#[verifier::spinoff_prover]
pub proof fn lemma_ops_trunc(
    b: Seq<u8>,
    start: int,
    p: int,
    desc: Desc,
    head: Head,
    pfx: Prefixes,
    bitness: u32,
    ip: u64,
    k: int,
)
    requires
        0 <= start <= p <= k,
        k <= b.len(),
        p <= start + MAX_INSN_LEN,
    ensures
        decode_operands(b, start, p, desc, head, pfx, bitness, ip) matches Ok((i, q)) ==> {
            &&& q <= k ==> decode_operands(b.take(k), start, p, desc, head, pfx, bitness, ip)
                == decode_operands(b, start, p, desc, head, pfx, bitness, ip)
            &&& k < q ==> (decode_operands(b.take(k), start, p, desc, head, pfx, bitness, ip)
                matches Err((e, qe)) && e == DecodeError::TruncatedInput && p <= qe < q)
        },
{
    match desc.form {
        OpsForm::NoOps => lemma_ops_trunc_noops(b, start, p, desc, head, pfx, bitness, ip, k),
        OpsForm::StringMovs => lemma_ops_trunc_stringmovs(b, start, p, desc, head, pfx, bitness, ip, k),
        OpsForm::RegOpImm => lemma_ops_trunc_regopimm(b, start, p, desc, head, pfx, bitness, ip, k),
        OpsForm::RelBranch => lemma_ops_trunc_relbranch(b, start, p, desc, head, pfx, bitness, ip, k),
        OpsForm::RelBranch8 => lemma_ops_trunc_relbranch8(b, start, p, desc, head, pfx, bitness, ip, k),
        OpsForm::FarBranch => lemma_ops_trunc_farbranch(b, start, p, desc, head, pfx, bitness, ip, k),
        OpsForm::EnterImm => lemma_ops_trunc_enterimm(b, start, p, desc, head, pfx, bitness, ip, k),
        _ => {
            lemma_modrm_trunc(b, start, p, desc, head, pfx, bitness, ip, k);
            lemma_modrm_bounds(b, start, p, desc, head, pfx, bitness, ip);
        },
    }

}

/// Splits a ModRM byte into its `mod`, `reg` and `rm` fields.
pub fn modrm_split(m: u8) -> (r: (u8, u8, u8))
    ensures
        r.0 == m >> 6 && r.1 == (m >> 3) & 7 && r.2 == m & 7,
        r.0 < 4 && r.1 < 8 && r.2 < 8,
{
    proof {
        assert(m >> 6 < 4) by (bit_vector);
        assert((m >> 3) & 7 < 8) by (bit_vector);
        assert(m & 7 < 8) by (bit_vector);
    }
    (m >> 6, (m >> 3) & 7, m & 7)
}

/// Decodes the trailing bytes and operand slots, exactly as the model
/// `decode_operands` does.
#[verifier::rlimit(100)]
#[verifier::spinoff_prover]
pub fn decode_operands_x(
    b: &Vec<u8>,
    start: usize,
    p: usize,
    desc: Desc,
    head: Head,
    pfx: Prefixes,
    bitness: u32,
    ip: u64,
) -> (r: Result<(Instruction, usize), (DecodeError, usize)>)
    requires
        pos_wf(b@, start as int, p as int),
    ensures
        corresponds(r, decode_operands(b@, start as int, p as int, desc, head, pfx, bitness, ip)),
{
    let i0 = base_inst(desc, head, pfx, bitness, ip);
    match desc.form {
        OpsForm::NoOps => {
            let mut i = i0;
            i.length = (p - start) as u64;
            Ok((i, p))
        },
        OpsForm::StringMovs => {
            let asize = addr_size(bitness, pfx.asz);
            let mut i = i0;
            i.op_count = 2;
            i.op0_kind = if asize == 16 {
                OpKind::MemoryESDI
            } else if asize == 32 {
                OpKind::MemoryESEDI
            } else {
                OpKind::MemoryESRDI
            };
            i.op1_kind = if asize == 16 {
                OpKind::MemorySegSI
            } else if asize == 32 {
                OpKind::MemorySegESI
            } else {
                OpKind::MemorySegRSI
            };
            i.mem_size = desc.mem_size;
            i.mem_segment = eff_seg(pfx.seg, REG_DS, bitness);
            i.length = (p - start) as u64;
            Ok((i, p))
        },
        OpsForm::RegOpImm => {
            let opc = head.opcode;
            proof {
                assert(opc & 7 < 8) by (bit_vector);
            }
            let r0 = gpr(desc.osize, (opc & 7) as u32 + if head.bb { 8 } else { 0 });
            let mut i = i0;
            i.op_count = 2;
            i.op0_kind = OpKind::Register;
            i.op0_register = r0;
            if desc.osize == 16 {
                let (v, q) = match read_u16(b, start, p) {
                    Ok(t) => t,
                    Err(e) => {
                        return Err(e);
                    },
                };
                i.op1_kind = OpKind::Immediate16;
                i.immediate = v as u64;
                i.length = (q - start) as u64;
                Ok((i, q))
            } else if desc.osize == 32 {
                let (v, q) = match read_u32(b, start, p) {
                    Ok(t) => t,
                    Err(e) => {
                        return Err(e);
                    },
                };
                i.op1_kind = OpKind::Immediate32;
                i.immediate = v as u64;
                i.length = (q - start) as u64;
                Ok((i, q))
            } else {
                let (v, q) = match read_u64(b, start, p) {
                    Ok(t) => t,
                    Err(e) => {
                        return Err(e);
                    },
                };
                i.op1_kind = OpKind::Immediate64;
                i.immediate = v;
                i.length = (q - start) as u64;
                Ok((i, q))
            }
        },
        OpsForm::RelBranch => {
            let mut i = i0;
            i.op_count = 1;
            if desc.osize == 16 {
                let (v, q) = match read_u16(b, start, p) {
                    Ok(t) => t,
                    Err(e) => {
                        return Err(e);
                    },
                };
                i.op0_kind = OpKind::NearBranch16;
                i.near_branch_target = wadd(wadd(ip, (q - start) as u64), sx16_64(v)) & 0xFFFF;
                i.length = (q - start) as u64;
                Ok((i, q))
            } else if desc.osize == 64 {
                let (v, q) = match read_u32(b, start, p) {
                    Ok(t) => t,
                    Err(e) => {
                        return Err(e);
                    },
                };
                i.op0_kind = OpKind::NearBranch64;
                i.near_branch_target = wadd(wadd(ip, (q - start) as u64), sx32_64(v));
                i.length = (q - start) as u64;
                Ok((i, q))
            } else {
                let (v, q) = match read_u32(b, start, p) {
                    Ok(t) => t,
                    Err(e) => {
                        return Err(e);
                    },
                };
                i.op0_kind = OpKind::NearBranch32;
                i.near_branch_target = wadd(wadd(ip, (q - start) as u64), sx32_64(v)) & 0xFFFF_FFFF;
                i.length = (q - start) as u64;
                Ok((i, q))
            }
        },
        OpsForm::RelBranch8 => {
            let (v, q) = match read_u8(b, start, p) {
                Ok(t) => t,
                Err(e) => {
                    return Err(e);
                },
            };
            let t = wadd(wadd(ip, (q - start) as u64), sx8_64(v));
            let mut i = i0;
            i.op_count = 1;
            if desc.osize == 16 {
                i.op0_kind = OpKind::NearBranch16;
                i.near_branch_target = t & 0xFFFF;
            } else if desc.osize == 32 {
                i.op0_kind = OpKind::NearBranch32;
                i.near_branch_target = t & 0xFFFF_FFFF;
            } else {
                i.op0_kind = OpKind::NearBranch64;
                i.near_branch_target = t;
            }
            i.length = (q - start) as u64;
            Ok((i, q))
        },
        OpsForm::FarBranch => {
            let mut i = i0;
            i.op_count = 1;
            if desc.osize == 16 {
                let (off, p1) = match read_u16(b, start, p) {
                    Ok(t) => t,
                    Err(e) => {
                        return Err(e);
                    },
                };
                let (sel, q) = match read_u16(b, start, p1) {
                    Ok(t) => t,
                    Err(e) => {
                        return Err(e);
                    },
                };
                i.op0_kind = OpKind::FarBranch16;
                i.far_branch_target = off as u32;
                i.far_branch_selector = sel;
                i.length = (q - start) as u64;
                Ok((i, q))
            } else {
                let (off, p1) = match read_u32(b, start, p) {
                    Ok(t) => t,
                    Err(e) => {
                        return Err(e);
                    },
                };
                let (sel, q) = match read_u16(b, start, p1) {
                    Ok(t) => t,
                    Err(e) => {
                        return Err(e);
                    },
                };
                i.op0_kind = OpKind::FarBranch32;
                i.far_branch_target = off;
                i.far_branch_selector = sel;
                i.length = (q - start) as u64;
                Ok((i, q))
            }
        },
        OpsForm::EnterImm => {
            let (v, p1) = match read_u16(b, start, p) {
                Ok(t) => t,
                Err(e) => {
                    return Err(e);
                },
            };
            let (v2, q) = match read_u8(b, start, p1) {
                Ok(t) => t,
                Err(e) => {
                    return Err(e);
                },
            };
            let mut i = i0;
            i.op_count = 2;
            i.op0_kind = OpKind::Immediate16;
            i.immediate = v as u64;
            i.op1_kind = OpKind::Immediate8_2nd;
            i.immediate2 = v2;
            i.length = (q - start) as u64;
            Ok((i, q))
        },
        _ => ops_modrm_x(b, start, p, desc, head, pfx, bitness, ip),
    }
}

/// One form's case of the executable ModRM decoder.
#[verifier::rlimit(100)]
#[verifier::spinoff_prover]
fn ops_modrm_rmreg(
    b: &Vec<u8>,
    start: usize,
    p: usize,
    desc: Desc,
    head: Head,
    pfx: Prefixes,
    bitness: u32,
    ip: u64,
) -> (r: Result<(Instruction, usize), (DecodeError, usize)>)
    requires
        pos_wf(b@, start as int, p as int),
        desc.form == OpsForm::RmReg,
    ensures
        corresponds(r, ops_modrm(b@, start as int, p as int, desc, head, pfx, bitness, ip)),
{
    let i0 = base_inst(desc, head, pfx, bitness, ip);
    let nfac = match desc.form {
        OpsForm::EvexRegRm | OpsForm::EvexRegVvvvRm => tuple_n(desc.tuple, head.w, head.bcst),
        _ => 1u64,
    };
    let (m, p1) = match read_u8(b, start, p) {
        Ok(t) => t,
        Err(e) => {
            return Err(e);
        },
    };
    let (md, reg, rm) = modrm_split(m);
    let reg_gpr = gpr(desc.osize, reg as u32 + if head.rr { 8 } else { 0 });
        let mut i = i0;
    i.op_count = 2;
    i.op1_kind = OpKind::Register;
    i.op1_register = reg_gpr;
    if md == 3 {
        i.op0_kind = OpKind::Register;
        i.op0_register = gpr(desc.osize, rm as u32 + if head.bb { 8 } else { 0 });
        i.length = (p1 - start) as u64;
        Ok((i, p1))
    } else {
        let (mo, q) = match mem_decode_x(b, start, p1, md, rm, head, pfx, bitness, nfac) {
            Ok(t) => t,
            Err(e) => {
                return Err(e);
            },
        };
        i.op0_kind = OpKind::Memory;
        let mut i2 = set_mem(i, mo, desc.mem_size);
        i2.length = (q - start) as u64;
        Ok((i2, q))
    }
        
}

/// One form's case of the executable ModRM decoder.
#[verifier::rlimit(100)]
#[verifier::spinoff_prover]
fn ops_modrm_regrm(
    b: &Vec<u8>,
    start: usize,
    p: usize,
    desc: Desc,
    head: Head,
    pfx: Prefixes,
    bitness: u32,
    ip: u64,
) -> (r: Result<(Instruction, usize), (DecodeError, usize)>)
    requires
        pos_wf(b@, start as int, p as int),
        desc.form == OpsForm::RegRm,
    ensures
        corresponds(r, ops_modrm(b@, start as int, p as int, desc, head, pfx, bitness, ip)),
{
    let i0 = base_inst(desc, head, pfx, bitness, ip);
    let nfac = match desc.form {
        OpsForm::EvexRegRm | OpsForm::EvexRegVvvvRm => tuple_n(desc.tuple, head.w, head.bcst),
        _ => 1u64,
    };
    let (m, p1) = match read_u8(b, start, p) {
        Ok(t) => t,
        Err(e) => {
            return Err(e);
        },
    };
    let (md, reg, rm) = modrm_split(m);
    let reg_gpr = gpr(desc.osize, reg as u32 + if head.rr { 8 } else { 0 });
        let mut i = i0;
    i.op_count = 2;
    i.op0_kind = OpKind::Register;
    i.op0_register = reg_gpr;
    if md == 3 {
        i.op1_kind = OpKind::Register;
        i.op1_register = gpr(desc.osize, rm as u32 + if head.bb { 8 } else { 0 });
        i.length = (p1 - start) as u64;
        Ok((i, p1))
    } else {
        let (mo, q) = match mem_decode_x(b, start, p1, md, rm, head, pfx, bitness, nfac) {
            Ok(t) => t,
            Err(e) => {
                return Err(e);
            },
        };
        i.op1_kind = OpKind::Memory;
        let mut i2 = set_mem(i, mo, desc.mem_size);
        i2.length = (q - start) as u64;
        Ok((i2, q))
    }
        
}

/// One form's case of the executable ModRM decoder.
#[verifier::rlimit(100)]
#[verifier::spinoff_prover]
fn ops_modrm_rmimm(
    b: &Vec<u8>,
    start: usize,
    p: usize,
    desc: Desc,
    head: Head,
    pfx: Prefixes,
    bitness: u32,
    ip: u64,
) -> (r: Result<(Instruction, usize), (DecodeError, usize)>)
    requires
        pos_wf(b@, start as int, p as int),
        desc.form == OpsForm::RmImm || desc.form == OpsForm::RmImm8,
    ensures
        corresponds(r, ops_modrm(b@, start as int, p as int, desc, head, pfx, bitness, ip)),
{
    let i0 = base_inst(desc, head, pfx, bitness, ip);
    let nfac = match desc.form {
        OpsForm::EvexRegRm | OpsForm::EvexRegVvvvRm => tuple_n(desc.tuple, head.w, head.bcst),
        _ => 1u64,
    };
    let (m, p1) = match read_u8(b, start, p) {
        Ok(t) => t,
        Err(e) => {
            return Err(e);
        },
    };
    let (md, reg, rm) = modrm_split(m);
    let reg_gpr = gpr(desc.osize, reg as u32 + if head.rr { 8 } else { 0 });
        if reg != 0 {
        return Err((DecodeError::InvalidInstruction, p1));
    }
    let (i1, p2) = if md == 3 {
        let mut i = i0;
        i.op0_kind = OpKind::Register;
        i.op0_register = gpr(desc.osize, rm as u32 + if head.bb { 8 } else { 0 });
        (i, p1)
    } else {
        let (mo, q) = match mem_decode_x(b, start, p1, md, rm, head, pfx, bitness, nfac) {
            Ok(t) => t,
            Err(e) => {
                return Err(e);
            },
        };
        let mut i = i0;
        i.op0_kind = OpKind::Memory;
        (set_mem(i, mo, desc.mem_size), q)
    };
    let mut i = i1;
    i.op_count = 2;
    if matches!(desc.form, OpsForm::RmImm8) {
        let (v, q) = match read_u8(b, start, p2) {
            Ok(t) => t,
            Err(e) => {
                return Err(e);
            },
        };
        if desc.osize == 16 {
            i.op1_kind = OpKind::Immediate8to16;
            i.immediate = sx8_16(v);
        } else if desc.osize == 32 {
            i.op1_kind = OpKind::Immediate8to32;
            i.immediate = sx8_32(v);
        } else {
            i.op1_kind = OpKind::Immediate8to64;
            i.immediate = sx8_64(v);
        }
        i.length = (q - start) as u64;
        Ok((i, q))
    } else if desc.osize == 16 {
        let (v, q) = match read_u16(b, start, p2) {
            Ok(t) => t,
            Err(e) => {
                return Err(e);
            },
        };
        i.op1_kind = OpKind::Immediate16;
        i.immediate = v as u64;
        i.length = (q - start) as u64;
        Ok((i, q))
    } else if desc.osize == 32 {
        let (v, q) = match read_u32(b, start, p2) {
            Ok(t) => t,
            Err(e) => {
                return Err(e);
            },
        };
        i.op1_kind = OpKind::Immediate32;
        i.immediate = v as u64;
        i.length = (q - start) as u64;
        Ok((i, q))
    } else {
        let (v, q) = match read_u32(b, start, p2) {
            Ok(t) => t,
            Err(e) => {
                return Err(e);
            },
        };
        i.op1_kind = OpKind::Immediate32to64;
        i.immediate = sx32_64(v);
        i.length = (q - start) as u64;
        Ok((i, q))
    }
        
}

/// One form's case of the executable ModRM decoder.
#[verifier::rlimit(100)]
#[verifier::spinoff_prover]
fn ops_modrm_poprm(
    b: &Vec<u8>,
    start: usize,
    p: usize,
    desc: Desc,
    head: Head,
    pfx: Prefixes,
    bitness: u32,
    ip: u64,
) -> (r: Result<(Instruction, usize), (DecodeError, usize)>)
    requires
        pos_wf(b@, start as int, p as int),
        desc.form == OpsForm::PopRmForm,
    ensures
        corresponds(r, ops_modrm(b@, start as int, p as int, desc, head, pfx, bitness, ip)),
{
    let i0 = base_inst(desc, head, pfx, bitness, ip);
    let nfac = match desc.form {
        OpsForm::EvexRegRm | OpsForm::EvexRegVvvvRm => tuple_n(desc.tuple, head.w, head.bcst),
        _ => 1u64,
    };
    let (m, p1) = match read_u8(b, start, p) {
        Ok(t) => t,
        Err(e) => {
            return Err(e);
        },
    };
    let (md, reg, rm) = modrm_split(m);
    let reg_gpr = gpr(desc.osize, reg as u32 + if head.rr { 8 } else { 0 });
        if reg != 0 {
        return Err((DecodeError::InvalidInstruction, p1));
    }
    let mut i = i0;
    i.op_count = 1;
    if md == 3 {
        i.op0_kind = OpKind::Register;
        i.op0_register = gpr(desc.osize, rm as u32 + if head.bb { 8 } else { 0 });
        i.length = (p1 - start) as u64;
        Ok((i, p1))
    } else {
        let (mo, q) = match mem_decode_x(b, start, p1, md, rm, head, pfx, bitness, nfac) {
            Ok(t) => t,
            Err(e) => {
                return Err(e);
            },
        };
        i.op0_kind = OpKind::Memory;
        let mut i2 = set_mem(i, mo, desc.mem_size);
        i2.length = (q - start) as u64;
        Ok((i2, q))
    }
        
}

/// One form's case of the executable ModRM decoder.
#[verifier::rlimit(100)]
#[verifier::spinoff_prover]
fn ops_modrm_regmem(
    b: &Vec<u8>,
    start: usize,
    p: usize,
    desc: Desc,
    head: Head,
    pfx: Prefixes,
    bitness: u32,
    ip: u64,
) -> (r: Result<(Instruction, usize), (DecodeError, usize)>)
    requires
        pos_wf(b@, start as int, p as int),
        desc.form == OpsForm::RegMem,
    ensures
        corresponds(r, ops_modrm(b@, start as int, p as int, desc, head, pfx, bitness, ip)),
{
    let i0 = base_inst(desc, head, pfx, bitness, ip);
    let nfac = match desc.form {
        OpsForm::EvexRegRm | OpsForm::EvexRegVvvvRm => tuple_n(desc.tuple, head.w, head.bcst),
        _ => 1u64,
    };
    let (m, p1) = match read_u8(b, start, p) {
        Ok(t) => t,
        Err(e) => {
            return Err(e);
        },
    };
    let (md, reg, rm) = modrm_split(m);
    let reg_gpr = gpr(desc.osize, reg as u32 + if head.rr { 8 } else { 0 });
        if md == 3 {
        return Err((DecodeError::InvalidInstruction, p1));
    }
    let (mo, q) = match mem_decode_x(b, start, p1, md, rm, head, pfx, bitness, nfac) {
        Ok(t) => t,
        Err(e) => {
            return Err(e);
        },
    };
    let mut i = i0;
    i.op_count = 2;
    i.op0_kind = OpKind::Register;
    i.op0_register = reg_gpr;
    i.op1_kind = OpKind::Memory;
    let mut i2 = set_mem(i, mo, desc.mem_size);
    i2.length = (q - start) as u64;
    Ok((i2, q))
        
}

/// One form's case of the executable ModRM decoder.
#[verifier::rlimit(100)]
#[verifier::spinoff_prover]
fn ops_modrm_vregrm(
    b: &Vec<u8>,
    start: usize,
    p: usize,
    desc: Desc,
    head: Head,
    pfx: Prefixes,
    bitness: u32,
    ip: u64,
) -> (r: Result<(Instruction, usize), (DecodeError, usize)>)
    requires
        pos_wf(b@, start as int, p as int),
        desc.form == OpsForm::VRegRm,
    ensures
        corresponds(r, ops_modrm(b@, start as int, p as int, desc, head, pfx, bitness, ip)),
{
    let i0 = base_inst(desc, head, pfx, bitness, ip);
    let nfac = match desc.form {
        OpsForm::EvexRegRm | OpsForm::EvexRegVvvvRm => tuple_n(desc.tuple, head.w, head.bcst),
        _ => 1u64,
    };
    let (m, p1) = match read_u8(b, start, p) {
        Ok(t) => t,
        Err(e) => {
            return Err(e);
        },
    };
    let (md, reg, rm) = modrm_split(m);
    let reg_gpr = gpr(desc.osize, reg as u32 + if head.rr { 8 } else { 0 });
        if head.vvvv != 0 {
        return Err((DecodeError::InvalidInstruction, p1));
    }
    let r0 = vec_reg(head.ll, reg as u32 + if head.rr { 8 } else { 0 });
    let mut i = i0;
    i.op_count = 2;
    i.op0_kind = OpKind::Register;
    i.op0_register = r0;
    if md == 3 {
        i.op1_kind = OpKind::Register;
        i.op1_register = vec_reg(head.ll, rm as u32 + if head.bb { 8 } else { 0 });
        i.length = (p1 - start) as u64;
        Ok((i, p1))
    } else {
        let (mo, q) = match mem_decode_x(b, start, p1, md, rm, head, pfx, bitness, nfac) {
            Ok(t) => t,
            Err(e) => {
                return Err(e);
            },
        };
        i.op1_kind = OpKind::Memory;
        let mut i2 = set_mem(i, mo, desc.mem_size);
        i2.length = (q - start) as u64;
        Ok((i2, q))
    }
        
}

/// One form's case of the executable ModRM decoder.
#[verifier::rlimit(100)]
#[verifier::spinoff_prover]
fn ops_modrm_evexregrm(
    b: &Vec<u8>,
    start: usize,
    p: usize,
    desc: Desc,
    head: Head,
    pfx: Prefixes,
    bitness: u32,
    ip: u64,
) -> (r: Result<(Instruction, usize), (DecodeError, usize)>)
    requires
        pos_wf(b@, start as int, p as int),
        desc.form == OpsForm::EvexRegRm,
    ensures
        corresponds(r, ops_modrm(b@, start as int, p as int, desc, head, pfx, bitness, ip)),
{
    let i0 = base_inst(desc, head, pfx, bitness, ip);
    let nfac = match desc.form {
        OpsForm::EvexRegRm | OpsForm::EvexRegVvvvRm => tuple_n(desc.tuple, head.w, head.bcst),
        _ => 1u64,
    };
    let (m, p1) = match read_u8(b, start, p) {
        Ok(t) => t,
        Err(e) => {
            return Err(e);
        },
    };
    let (md, reg, rm) = modrm_split(m);
    let reg_gpr = gpr(desc.osize, reg as u32 + if head.rr { 8 } else { 0 });
        if head.vvvv != 0 || head.v2 || (head.z && head.aaa == 0) {
        return Err((DecodeError::InvalidInstruction, p1));
    }
    let r0 = vec_reg(0, reg as u32 + if head.rr { 8 } else { 0 } + if head.r2 { 16 } else { 0 });
    let mut i = i0;
    i.op_mask = head.aaa as u32;
    i.zeroing_masking = head.z;
    i.op_count = 2;
    i.op0_kind = OpKind::Register;
    i.op0_register = r0;
    if md == 3 {
        i.op1_kind = OpKind::Register;
        i.op1_register = vec_reg(0, rm as u32 + if head.bb { 8 } else { 0 } + if head.xx { 16 } else { 0 });
        i.length = (p1 - start) as u64;
        Ok((i, p1))
    } else {
        let (mo, q) = match mem_decode_x(b, start, p1, md, rm, head, pfx, bitness, nfac) {
            Ok(t) => t,
            Err(e) => {
                return Err(e);
            },
        };
        i.op1_kind = OpKind::Memory;
        let mut i2 = set_mem(i, mo, desc.mem_size);
        i2.length = (q - start) as u64;
        Ok((i2, q))
    }
        
}

/// One form's case of the executable ModRM decoder.
#[verifier::rlimit(100)]
#[verifier::spinoff_prover]
fn ops_modrm_evexvvvv(
    b: &Vec<u8>,
    start: usize,
    p: usize,
    desc: Desc,
    head: Head,
    pfx: Prefixes,
    bitness: u32,
    ip: u64,
) -> (r: Result<(Instruction, usize), (DecodeError, usize)>)
    requires
        pos_wf(b@, start as int, p as int),
        desc.form == OpsForm::EvexRegVvvvRm,
    ensures
        corresponds(r, ops_modrm(b@, start as int, p as int, desc, head, pfx, bitness, ip)),
{
    let i0 = base_inst(desc, head, pfx, bitness, ip);
    let nfac = match desc.form {
        OpsForm::EvexRegRm | OpsForm::EvexRegVvvvRm => tuple_n(desc.tuple, head.w, head.bcst),
        _ => 1u64,
    };
    let (m, p1) = match read_u8(b, start, p) {
        Ok(t) => t,
        Err(e) => {
            return Err(e);
        },
    };
    let (md, reg, rm) = modrm_split(m);
    let reg_gpr = gpr(desc.osize, reg as u32 + if head.rr { 8 } else { 0 });
        if head.z && head.aaa == 0 {
        return Err((DecodeError::InvalidInstruction, p1));
    }
    let r0 = vec_reg(0, reg as u32 + if head.rr { 8 } else { 0 } + if head.r2 { 16 } else { 0 });
    let vv = head.vvvv;
    proof {
        assert(vv & 0xF < 16) by (bit_vector);
    }
    let r1 = vec_reg(0, (vv & 0xF) as u32 + if head.v2 { 16 } else { 0 });
    let mut i = i0;
    i.op_mask = head.aaa as u32;
    i.zeroing_masking = head.z;
    i.op0_kind = OpKind::Register;
    i.op0_register = r0;
    i.op1_kind = OpKind::Register;
    i.op1_register = r1;
    i.op_count = 3;
    if md == 3 {
        if head.bcst {
            return Err((DecodeError::InvalidInstruction, p1));
        }
        i.op2_kind = OpKind::Register;
        i.op2_register = vec_reg(0, rm as u32 + if head.bb { 8 } else { 0 } + if head.xx { 16 } else { 0 });
        i.length = (p1 - start) as u64;
        Ok((i, p1))
    } else {
        let (mo, q) = match mem_decode_x(b, start, p1, md, rm, head, pfx, bitness, nfac) {
            Ok(t) => t,
            Err(e) => {
                return Err(e);
            },
        };
        i.op2_kind = OpKind::Memory;
        i.broadcast = head.bcst;
        let mut i2 = set_mem(i, mo, desc.mem_size);
        i2.length = (q - start) as u64;
        Ok((i2, q))
    }
        
}

/// Decodes the ModRM-taking forms, exactly as the model `ops_modrm` does.
pub fn ops_modrm_x(
    b: &Vec<u8>,
    start: usize,
    p: usize,
    desc: Desc,
    head: Head,
    pfx: Prefixes,
    bitness: u32,
    ip: u64,
) -> (r: Result<(Instruction, usize), (DecodeError, usize)>)
    requires
        pos_wf(b@, start as int, p as int),
    ensures
        corresponds(r, ops_modrm(b@, start as int, p as int, desc, head, pfx, bitness, ip)),
{
    match desc.form {
        OpsForm::RmReg => ops_modrm_rmreg(b, start, p, desc, head, pfx, bitness, ip),
        OpsForm::RegRm => ops_modrm_regrm(b, start, p, desc, head, pfx, bitness, ip),
        OpsForm::RmImm | OpsForm::RmImm8 => ops_modrm_rmimm(b, start, p, desc, head, pfx, bitness, ip),
        OpsForm::PopRmForm => ops_modrm_poprm(b, start, p, desc, head, pfx, bitness, ip),
        OpsForm::RegMem => ops_modrm_regmem(b, start, p, desc, head, pfx, bitness, ip),
        OpsForm::VRegRm => ops_modrm_vregrm(b, start, p, desc, head, pfx, bitness, ip),
        OpsForm::EvexRegRm => ops_modrm_evexregrm(b, start, p, desc, head, pfx, bitness, ip),
        OpsForm::EvexRegVvvvRm => ops_modrm_evexvvvv(b, start, p, desc, head, pfx, bitness, ip),
        _ => {
            let (m, p1) = match read_u8(b, start, p) {
                Ok(t) => t,
                Err(e) => {
                    return Err(e);
                },
            };
            Err((DecodeError::InvalidInstruction, p1))
        },
    }
}

} // verus!
