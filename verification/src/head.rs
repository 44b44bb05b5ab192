//! The escape-byte classifier: after the prefix scan it decides which
//! encoding family the instruction uses (legacy maps, VEX2/VEX3, XOP, EVEX)
//! and extracts the family's bit fields.
//!
//! `C4`/`C5`/`62` (and `8F` for XOP) are ambiguous in 16/32-bit code: they
//! are a VEX/EVEX/XOP escape only when the following byte could not be the
//! ModRM byte of the legacy instruction (its top two bits are `11`, or for
//! `8F` its `reg` field is non-zero); otherwise the byte is a plain legacy
//! opcode.  In 64-bit code they always start the extended form.

use vstd::prelude::*;
use crate::enums::EncodingKind;
use crate::errors::DecodeError;
use crate::prefix::Prefixes;
use crate::reader::{corresponds, pos_wf, rd8, read_u8, lemma_rd8_trunc, lemma_rd8_bounds};

verus! {

/// The classified opcode head: encoding family, opcode map and byte, and
/// the family's extension bits, normalized so that `true` means "extension
/// set" (the stored VEX/EVEX bits are inverted on the wire).
#[derive(Copy, Clone, Eq, PartialEq, Structural, Debug)]
pub struct Head {
    /// Encoding family.
    pub enc: EncodingKind,
    /// Opcode map: 1 = one-byte, 2 = `0F`, 3 = `0F 38`, 4 = `0F 3A`;
    /// 8 to 10 are the XOP maps.
    pub map: u8,
    /// The opcode byte.
    pub opcode: u8,
    /// Operand-size extension bit (REX.W / VEX.W / EVEX.W).
    pub w: bool,
    /// ModRM.reg register extension (REX.R / VEX.R / EVEX.R).
    pub rr: bool,
    /// SIB.index register extension (REX.X / VEX.X / EVEX.X).
    pub xx: bool,
    /// ModRM.rm / SIB.base register extension (REX.B / VEX.B / EVEX.B).
    pub bb: bool,
    /// EVEX.R' second reg extension bit.
    pub r2: bool,
    /// EVEX.V' second vvvv extension bit.
    pub v2: bool,
    /// The non-destructive source register field (already un-inverted).
    pub vvvv: u8,
    /// Vector length field (VEX: 0/1; EVEX: 0 to 3).
    pub ll: u8,
    /// Embedded mandatory-prefix field (0 = none, 1 = 66, 2 = F3, 3 = F2).
    pub pp: u8,
    /// EVEX mask register field.
    pub aaa: u8,
    /// EVEX zeroing-masking bit.
    pub z: bool,
    /// EVEX broadcast / rounding bit.
    pub bcst: bool,
}

/// The head of a legacy-encoded instruction: extension bits come from a REX
/// prefix if one immediately precedes the opcode.
pub open spec fn head_legacy_spec(pfx: Prefixes, map: u8, opcode: u8) -> Head {
    Head {
        enc: EncodingKind::Legacy,
        map,
        opcode,
        w: pfx.rex & 8 != 0,
        rr: pfx.rex & 4 != 0,
        xx: pfx.rex & 2 != 0,
        bb: pfx.rex & 1 != 0,
        r2: false,
        v2: false,
        vvvv: 0,
        ll: 0,
        pp: 0,
        aaa: 0,
        z: false,
        bcst: false,
    }
}

/// Builds the head of a legacy-encoded instruction.
#[verifier::when_used_as_spec(head_legacy_spec)]
pub fn head_legacy(pfx: Prefixes, map: u8, opcode: u8) -> (r: Head)
    ensures
        r == head_legacy_spec(pfx, map, opcode),
{
    Head {
        enc: EncodingKind::Legacy,
        map,
        opcode,
        w: pfx.rex & 8 != 0,
        rr: pfx.rex & 4 != 0,
        xx: pfx.rex & 2 != 0,
        bb: pfx.rex & 1 != 0,
        r2: false,
        v2: false,
        vvvv: 0,
        ll: 0,
        pp: 0,
        aaa: 0,
        z: false,
        bcst: false,
    }
}

/// A VEX/XOP/EVEX escape is architecturally invalid after a REX prefix, a
/// lock prefix, or a real `66`/`F2`/`F3` prefix (those live inside `pp`).
pub open spec fn vex_banned_spec(pfx: Prefixes) -> bool {
    pfx.rex != 0 || pfx.lock || pfx.osz || pfx.f2 || pfx.f3
}

/// Returns whether the gathered prefixes forbid a VEX/XOP/EVEX form.
#[verifier::when_used_as_spec(vex_banned_spec)]
pub fn vex_banned(pfx: Prefixes) -> (r: bool)
    ensures
        r == vex_banned_spec(pfx),
{
    pfx.rex != 0 || pfx.lock || pfx.osz || pfx.f2 || pfx.f3
}

/// The head of a VEX2 (`C5`) form, from its single payload byte.
pub open spec fn head_vex2_spec(b1: u8, opcode: u8, bitness: u32) -> Head {
    Head {
        enc: EncodingKind::VEX,
        map: 2,
        opcode,
        w: false,
        rr: if bitness == 64 { b1 & 0x80 == 0 } else { false },
        xx: false,
        bb: false,
        r2: false,
        v2: false,
        vvvv: if bitness == 64 { (!b1 >> 3) & 0xF } else { (!b1 >> 3) & 7 },
        ll: (b1 >> 2) & 1,
        pp: b1 & 3,
        aaa: 0,
        z: false,
        bcst: false,
    }
}

/// Builds the head of a VEX2 form.
#[verifier::when_used_as_spec(head_vex2_spec)]
pub fn head_vex2(b1: u8, opcode: u8, bitness: u32) -> (r: Head)
    ensures
        r == head_vex2_spec(b1, opcode, bitness),
{
    Head {
        enc: EncodingKind::VEX,
        map: 2,
        opcode,
        w: false,
        rr: if bitness == 64 { b1 & 0x80 == 0 } else { false },
        xx: false,
        bb: false,
        r2: false,
        v2: false,
        vvvv: if bitness == 64 { (!b1 >> 3) & 0xF } else { (!b1 >> 3) & 7 },
        ll: (b1 >> 2) & 1,
        pp: b1 & 3,
        aaa: 0,
        z: false,
        bcst: false,
    }
}

/// The head of a VEX3 (`C4`) or XOP (`8F`) form from its two payload bytes;
/// `map` is already translated to this crate's map numbering.
pub open spec fn head_vex3_spec(enc: EncodingKind, map: u8, b1: u8, b2: u8, opcode: u8, bitness: u32) -> Head {
    Head {
        enc,
        map,
        opcode,
        w: b2 & 0x80 != 0,
        rr: if bitness == 64 { b1 & 0x80 == 0 } else { false },
        xx: if bitness == 64 { b1 & 0x40 == 0 } else { false },
        bb: if bitness == 64 { b1 & 0x20 == 0 } else { false },
        r2: false,
        v2: false,
        vvvv: if bitness == 64 { (!b2 >> 3) & 0xF } else { (!b2 >> 3) & 7 },
        ll: (b2 >> 2) & 1,
        pp: b2 & 3,
        aaa: 0,
        z: false,
        bcst: false,
    }
}

/// Builds the head of a VEX3 or XOP form.
#[verifier::when_used_as_spec(head_vex3_spec)]
pub fn head_vex3(enc: EncodingKind, map: u8, b1: u8, b2: u8, opcode: u8, bitness: u32) -> (r: Head)
    ensures
        r == head_vex3_spec(enc, map, b1, b2, opcode, bitness),
{
    Head {
        enc,
        map,
        opcode,
        w: b2 & 0x80 != 0,
        rr: if bitness == 64 { b1 & 0x80 == 0 } else { false },
        xx: if bitness == 64 { b1 & 0x40 == 0 } else { false },
        bb: if bitness == 64 { b1 & 0x20 == 0 } else { false },
        r2: false,
        v2: false,
        vvvv: if bitness == 64 { (!b2 >> 3) & 0xF } else { (!b2 >> 3) & 7 },
        ll: (b2 >> 2) & 1,
        pp: b2 & 3,
        aaa: 0,
        z: false,
        bcst: false,
    }
}

/// The head of an EVEX (`62`) form from its three payload bytes.
pub open spec fn head_evex_spec(p0: u8, p1: u8, p2: u8, opcode: u8, bitness: u32) -> Head {
    Head {
        enc: EncodingKind::EVEX,
        map: ((p0 & 3) + 1) as u8,
        opcode,
        w: p1 & 0x80 != 0,
        rr: if bitness == 64 { p0 & 0x80 == 0 } else { false },
        xx: if bitness == 64 { p0 & 0x40 == 0 } else { false },
        bb: if bitness == 64 { p0 & 0x20 == 0 } else { false },
        r2: if bitness == 64 { p0 & 0x10 == 0 } else { false },
        v2: if bitness == 64 { p2 & 0x08 == 0 } else { false },
        vvvv: if bitness == 64 { (!p1 >> 3) & 0xF } else { (!p1 >> 3) & 7 },
        ll: (p2 >> 5) & 3,
        pp: p1 & 3,
        aaa: p2 & 7,
        z: p2 & 0x80 != 0,
        bcst: p2 & 0x10 != 0,
    }
}

/// Builds the head of an EVEX form.
#[verifier::when_used_as_spec(head_evex_spec)]
pub fn head_evex(p0: u8, p1: u8, p2: u8, opcode: u8, bitness: u32) -> (r: Head)
    ensures
        r == head_evex_spec(p0, p1, p2, opcode, bitness),
{
    proof {
        assert(p0 & 3 < 4) by (bit_vector);
    }
    Head {
        enc: EncodingKind::EVEX,
        map: (p0 & 3) + 1,
        opcode,
        w: p1 & 0x80 != 0,
        rr: if bitness == 64 { p0 & 0x80 == 0 } else { false },
        xx: if bitness == 64 { p0 & 0x40 == 0 } else { false },
        bb: if bitness == 64 { p0 & 0x20 == 0 } else { false },
        r2: if bitness == 64 { p0 & 0x10 == 0 } else { false },
        v2: if bitness == 64 { p2 & 0x08 == 0 } else { false },
        vvvv: if bitness == 64 { (!p1 >> 3) & 0xF } else { (!p1 >> 3) & 7 },
        ll: (p2 >> 5) & 3,
        pp: p1 & 3,
        aaa: p2 & 7,
        z: p2 & 0x80 != 0,
        bcst: p2 & 0x10 != 0,
    }
}

/// Classifies the bytes at `p` (the first non-prefix byte) into an opcode
/// head, consuming escape and payload bytes.  On success the returned
/// position is just past the opcode byte.
pub open spec fn fetch_head(b: Seq<u8>, start: int, p: int, bitness: u32, pfx: Prefixes)
    -> Result<(Head, int), (DecodeError, int)>
{
    match rd8(b, start, p) {
        Err(e) => Err(e),
        Ok((b0, p1)) => if b0 == 0x0F {
            match rd8(b, start, p1) {
                Err(e) => Err(e),
                Ok((b1, p2)) => if b1 == 0x38 {
                    match rd8(b, start, p2) {
                        Err(e) => Err(e),
                        Ok((b2, p3)) => Ok((head_legacy_spec(pfx, 3, b2), p3)),
                    }
                } else if b1 == 0x3A {
                    match rd8(b, start, p2) {
                        Err(e) => Err(e),
                        Ok((b2, p3)) => Ok((head_legacy_spec(pfx, 4, b2), p3)),
                    }
                } else {
                    Ok((head_legacy_spec(pfx, 2, b1), p2))
                },
            }
        } else if b0 == 0xC5 || b0 == 0xC4 || b0 == 0x62 {
            match rd8(b, start, p1) {
                Err(e) => Err(e),
                Ok((pk, p2)) => if bitness == 64 || pk & 0xC0 == 0xC0 {
                    if vex_banned_spec(pfx) {
                        Err((DecodeError::InvalidInstruction, p1))
                    } else if b0 == 0xC5 {
                        match rd8(b, start, p2) {
                            Err(e) => Err(e),
                            Ok((op, p3)) => Ok((head_vex2_spec(pk, op, bitness), p3)),
                        }
                    } else if b0 == 0xC4 {
                        match rd8(b, start, p2) {
                            Err(e) => Err(e),
                            Ok((b2, p3)) => if pk & 0x1F < 1 || pk & 0x1F > 3 {
                                Err((DecodeError::InvalidInstruction, p3))
                            } else {
                                match rd8(b, start, p3) {
                                    Err(e) => Err(e),
                                    Ok((op, p4)) => Ok((head_vex3_spec(
                                        EncodingKind::VEX,
                                        ((pk & 0x1F) + 1) as u8,
                                        pk,
                                        b2,
                                        op,
                                        bitness,
                                    ), p4)),
                                }
                            },
                        }
                    } else {
                        match rd8(b, start, p2) {
                            Err(e) => Err(e),
                            Ok((e1, p3)) => match rd8(b, start, p3) {
                                Err(e) => Err(e),
                                Ok((e2, p4)) => if pk & 0x0C != 0 || pk & 3 == 0 || e1 & 4 == 0 {
                                    Err((DecodeError::InvalidInstruction, p4))
                                } else {
                                    match rd8(b, start, p4) {
                                        Err(e) => Err(e),
                                        Ok((op, p5)) => Ok((head_evex_spec(pk, e1, e2, op, bitness), p5)),
                                    }
                                },
                            },
                        }
                    }
                } else {
                    Ok((head_legacy_spec(pfx, 1, b0), p1))
                },
            }
        } else if b0 == 0x8F {
            match rd8(b, start, p1) {
                Err(e) => Err(e),
                Ok((pk, p2)) => if (pk >> 3) & 7 != 0 {
                    if vex_banned_spec(pfx) {
                        Err((DecodeError::InvalidInstruction, p1))
                    } else {
                        match rd8(b, start, p2) {
                            Err(e) => Err(e),
                            Ok((b2, p3)) => if pk & 0x1F < 8 || pk & 0x1F > 10 {
                                Err((DecodeError::InvalidInstruction, p3))
                            } else {
                                match rd8(b, start, p3) {
                                    Err(e) => Err(e),
                                    Ok((op, p4)) => Ok((head_vex3_spec(
                                        EncodingKind::XOP,
                                        (pk & 0x1F) as u8,
                                        pk,
                                        b2,
                                        op,
                                        bitness,
                                    ), p4)),
                                }
                            },
                        }
                    }
                } else {
                    Ok((head_legacy_spec(pfx, 1, 0x8F), p1))
                },
            }
        } else {
            Ok((head_legacy_spec(pfx, 1, b0), p1))
        },
    }
}

/// Position bounds of the classifier.
pub proof fn lemma_fetch_head_bounds(b: Seq<u8>, start: int, p: int, bitness: u32, pfx: Prefixes)
    requires
        0 <= p <= b.len(),
        p <= start + crate::reader::MAX_INSN_LEN,
    ensures
        fetch_head(b, start, p, bitness, pfx) matches Ok((h, q)) ==>
            p < q && q <= b.len() && q <= start + crate::reader::MAX_INSN_LEN,
        fetch_head(b, start, p, bitness, pfx) matches Err((e, q)) ==>
            p <= q && q <= b.len() && q <= start + crate::reader::MAX_INSN_LEN,
{
}

/// Truncation behaviour of the classifier: cutting the input before the
/// position it reached turns success into a truncation failure; cutting at
/// or after it changes nothing.
pub proof fn lemma_fetch_head_trunc(
    b: Seq<u8>,
    start: int,
    p: int,
    bitness: u32,
    pfx: Prefixes,
    k: int,
)
    requires
        0 <= p,
        0 <= k <= b.len(),
    ensures
        fetch_head(b, start, p, bitness, pfx) matches Ok((h, q)) ==> {
            &&& q + 1 <= k ==> fetch_head(b.take(k), start, p, bitness, pfx)
                == fetch_head(b, start, p, bitness, pfx)
            &&& k < q ==> (fetch_head(b.take(k), start, p, bitness, pfx) matches Err((e, qe))
                && e == DecodeError::TruncatedInput && p <= qe < q)
            &&& k == q ==> (fetch_head(b.take(k), start, p, bitness, pfx)
                == fetch_head(b, start, p, bitness, pfx)
                || (fetch_head(b.take(k), start, p, bitness, pfx) matches Err((e, qe))
                    && e == DecodeError::TruncatedInput && p <= qe <= q))
        },
{
    lemma_rd8_trunc(b, start, p, k);
    lemma_rd8_bounds(b, start, p);
    match rd8(b, start, p) {
        Ok((b0, p1)) => {
            lemma_rd8_trunc(b, start, p1, k);
            lemma_rd8_bounds(b, start, p1);
            match rd8(b, start, p1) {
                Ok((x1, p2)) => {
                    lemma_rd8_trunc(b, start, p2, k);
                    lemma_rd8_bounds(b, start, p2);
                    match rd8(b, start, p2) {
                        Ok((x2, p3)) => {
                            lemma_rd8_trunc(b, start, p3, k);
                            lemma_rd8_bounds(b, start, p3);
                            match rd8(b, start, p3) {
                                Ok((x3, p4)) => {
                                    lemma_rd8_trunc(b, start, p4, k);
                                    lemma_rd8_bounds(b, start, p4);
                                },
                                _ => {},
                            }
                        },
                        _ => {},
                    }
                },
                _ => {},
            }
        },
        _ => {},
    }
}

/// Classifies the bytes at `p`, exactly as the model `fetch_head` does.
pub fn fetch_head_x(b: &Vec<u8>, start: usize, p: usize, bitness: u32, pfx: Prefixes)
    -> (r: Result<(Head, usize), (DecodeError, usize)>)
    requires
        pos_wf(b@, start as int, p as int),
    ensures
        corresponds(r, fetch_head(b@, start as int, p as int, bitness, pfx)),
{
    proof {
        lemma_rd8_bounds(b@, start as int, p as int);
    }
    let (b0, p1) = match read_u8(b, start, p) {
        Ok(t) => t,
        Err(e) => {
            return Err(e);
        },
    };
    if b0 == 0x0F {
        let (b1, p2) = match read_u8(b, start, p1) {
            Ok(t) => t,
            Err(e) => {
                return Err(e);
            },
        };
        if b1 == 0x38 {
            match read_u8(b, start, p2) {
                Ok((b2, p3)) => Ok((head_legacy(pfx, 3, b2), p3)),
                Err(e) => Err(e),
            }
        } else if b1 == 0x3A {
            match read_u8(b, start, p2) {
                Ok((b2, p3)) => Ok((head_legacy(pfx, 4, b2), p3)),
                Err(e) => Err(e),
            }
        } else {
            Ok((head_legacy(pfx, 2, b1), p2))
        }
    } else if b0 == 0xC5 || b0 == 0xC4 || b0 == 0x62 {
        let (pk, p2) = match read_u8(b, start, p1) {
            Ok(t) => t,
            Err(e) => {
                return Err(e);
            },
        };
        if bitness == 64 || pk & 0xC0 == 0xC0 {
            if vex_banned(pfx) {
                Err((DecodeError::InvalidInstruction, p1))
            } else if b0 == 0xC5 {
                match read_u8(b, start, p2) {
                    Ok((op, p3)) => Ok((head_vex2(pk, op, bitness), p3)),
                    Err(e) => Err(e),
                }
            } else if b0 == 0xC4 {
                let (b2, p3) = match read_u8(b, start, p2) {
                    Ok(t) => t,
                    Err(e) => {
                        return Err(e);
                    },
                };
                if pk & 0x1F < 1 || pk & 0x1F > 3 {
                    Err((DecodeError::InvalidInstruction, p3))
                } else {
                    match read_u8(b, start, p3) {
                        Ok((op, p4)) => Ok((head_vex3(
                            EncodingKind::VEX,
                            (pk & 0x1F) + 1,
                            pk,
                            b2,
                            op,
                            bitness,
                        ), p4)),
                        Err(e) => Err(e),
                    }
                }
            } else {
                let (e1, p3) = match read_u8(b, start, p2) {
                    Ok(t) => t,
                    Err(e) => {
                        return Err(e);
                    },
                };
                let (e2, p4) = match read_u8(b, start, p3) {
                    Ok(t) => t,
                    Err(e) => {
                        return Err(e);
                    },
                };
                if pk & 0x0C != 0 || pk & 3 == 0 || e1 & 4 == 0 {
                    Err((DecodeError::InvalidInstruction, p4))
                } else {
                    match read_u8(b, start, p4) {
                        Ok((op, p5)) => Ok((head_evex(pk, e1, e2, op, bitness), p5)),
                        Err(e) => Err(e),
                    }
                }
            }
        } else {
            Ok((head_legacy(pfx, 1, b0), p1))
        }
    } else if b0 == 0x8F {
        let (pk, p2) = match read_u8(b, start, p1) {
            Ok(t) => t,
            Err(e) => {
                return Err(e);
            },
        };
        if (pk >> 3) & 7 != 0 {
            if vex_banned(pfx) {
                Err((DecodeError::InvalidInstruction, p1))
            } else {
                let (b2, p3) = match read_u8(b, start, p2) {
                    Ok(t) => t,
                    Err(e) => {
                        return Err(e);
                    },
                };
                if pk & 0x1F < 8 || pk & 0x1F > 10 {
                    Err((DecodeError::InvalidInstruction, p3))
                } else {
                    match read_u8(b, start, p3) {
                        Ok((op, p4)) => Ok((head_vex3(
                            EncodingKind::XOP,
                            pk & 0x1F,
                            pk,
                            b2,
                            op,
                            bitness,
                        ), p4)),
                        Err(e) => Err(e),
                    }
                }
            }
        } else {
            Ok((head_legacy(pfx, 1, 0x8F), p1))
        }
    } else {
        Ok((head_legacy(pfx, 1, b0), p1))
    }
}

} // verus!
