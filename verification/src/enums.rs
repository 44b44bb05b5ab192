//! The closed enumerations of the decoder's vocabulary: code size, operand
//! kinds, encoding families, EVEX tuple types and transient prefix state.

use vstd::prelude::*;

verus! {

/// The code size (16/32/64) that was used when an instruction was decoded
#[derive(Copy, Clone, Eq, PartialEq, Structural, Debug)]
pub enum CodeSize {
    /// Unknown size
    Unknown,
    /// 16-bit code
    Code16,
    /// 32-bit code
    Code32,
    /// 64-bit code
    Code64,
}

/// Rounding control
#[derive(Copy, Clone, Eq, PartialEq, Structural, Debug)]
pub enum RoundingControl {
    /// No rounding mode
    NoRounding,
    /// Round to nearest (even)
    RoundToNearest,
    /// Round down (toward -inf)
    RoundDown,
    /// Round up (toward +inf)
    RoundUp,
    /// Round toward zero (truncate)
    RoundTowardZero,
}

/// Instruction operand kind
#[derive(Copy, Clone, Eq, PartialEq, Structural, Debug, Hash)]
pub enum OpKind {
    /// A register; the operand uses the register-id field of its slot
    Register,
    /// Near 16-bit branch; uses the near-branch target field
    NearBranch16,
    /// Near 32-bit branch; uses the near-branch target field
    NearBranch32,
    /// Near 64-bit branch; uses the near-branch target field
    NearBranch64,
    /// Far 16-bit branch; uses the far-branch target and selector fields
    FarBranch16,
    /// Far 32-bit branch; uses the far-branch target and selector fields
    FarBranch32,
    /// 8-bit constant; uses the immediate field
    Immediate8,
    /// Second 8-bit constant (`enter`-style forms); uses the secondary
    /// immediate field
    Immediate8_2nd,
    /// 16-bit constant; uses the immediate field
    Immediate16,
    /// 32-bit constant; uses the immediate field
    Immediate32,
    /// 64-bit constant; uses the immediate field
    Immediate64,
    /// An 8-bit value sign extended to 16 bits
    Immediate8to16,
    /// An 8-bit value sign extended to 32 bits
    Immediate8to32,
    /// An 8-bit value sign extended to 64 bits
    Immediate8to64,
    /// A 32-bit value sign extended to 64 bits
    Immediate32to64,
    /// `seg:[si]` string-instruction memory operand
    MemorySegSI,
    /// `seg:[esi]` string-instruction memory operand
    MemorySegESI,
    /// `seg:[rsi]` string-instruction memory operand
    MemorySegRSI,
    /// `seg:[di]` string-instruction memory operand
    MemorySegDI,
    /// `seg:[edi]` string-instruction memory operand
    MemorySegEDI,
    /// `seg:[rdi]` string-instruction memory operand
    MemorySegRDI,
    /// `es:[di]` string-instruction memory operand
    MemoryESDI,
    /// `es:[edi]` string-instruction memory operand
    MemoryESEDI,
    /// `es:[rdi]` string-instruction memory operand
    MemoryESRDI,
    /// 64-bit offset `[xxxxxxxxxxxxxxxx]` memory operand
    Memory64,
    /// Memory operand described by base/index/scale/displacement
    Memory,
}

/// Vector length parsed from a VEX/XOP/EVEX prefix (transient decode state)
#[derive(Copy, Clone, Eq, PartialEq, Structural, Debug)]
pub enum VectorLength {
    /// 128-bit vector
    L128,
    /// 256-bit vector
    L256,
    /// 512-bit vector
    L512,
    /// Reserved encoding
    Unknown,
}

impl Default for VectorLength {
    /// The decoder starts every instruction with a 128-bit vector length.
    fn default() -> (r: Self)
        ensures
            r == VectorLength::L128,
    {
        VectorLength::L128
    }
}

/// Mandatory prefix (66/F3/F2) parsed for the opcode-table lookup
/// (transient decode state)
#[derive(Copy, Clone, Eq, PartialEq, Structural, Debug)]
pub enum MandatoryPrefixByte {
    /// No mandatory prefix
    PNone,
    /// `66` prefix
    P66,
    /// `F3` prefix
    PF3,
    /// `F2` prefix
    PF2,
}

impl Default for MandatoryPrefixByte {
    /// The decoder starts every instruction with no mandatory prefix.
    fn default() -> (r: Self)
        ensures
            r == MandatoryPrefixByte::PNone,
    {
        MandatoryPrefixByte::PNone
    }
}

/// Instruction encoding
#[derive(Copy, Clone, Eq, PartialEq, Structural, Debug)]
pub enum EncodingKind {
    /// Legacy encoding
    Legacy,
    /// VEX encoding
    VEX,
    /// EVEX encoding
    EVEX,
    /// XOP encoding
    XOP,
    /// 3DNow! encoding
    D3NOW,
}

/// Tuple type (EVEX) which can be used to get the disp8 scale factor `N`
#[derive(Copy, Clone, Eq, PartialEq, Structural, Debug, Hash)]
#[allow(non_camel_case_types)]
pub enum TupleType {
    /// `N = 1`
    NoTuple,
    /// `N = b ? (W ? 8 : 4) : 16`
    Full_128,
    /// `N = b ? (W ? 8 : 4) : 32`
    Full_256,
    /// `N = b ? (W ? 8 : 4) : 64`
    Full_512,
    /// `N = b ? 4 : 8`
    Half_128,
    /// `N = b ? 4 : 16`
    Half_256,
    /// `N = b ? 4 : 32`
    Half_512,
    /// `N = 16`
    Full_Mem_128,
    /// `N = 32`
    Full_Mem_256,
    /// `N = 64`
    Full_Mem_512,
    /// `N = W ? 8 : 4`
    Tuple1_Scalar,
    /// `N = 1`
    Tuple1_Scalar_1,
    /// `N = 2`
    Tuple1_Scalar_2,
    /// `N = 4`
    Tuple1_Scalar_4,
    /// `N = 8`
    Tuple1_Scalar_8,
    /// `N = 4`
    Tuple1_Fixed_4,
    /// `N = 8`
    Tuple1_Fixed_8,
    /// `N = W ? 16 : 8`
    Tuple2,
    /// `N = W ? 32 : 16`
    Tuple4,
    /// `N = W ? error : 32`
    Tuple8,
    /// `N = 16`
    Tuple1_4X,
    /// `N = 8`
    Half_Mem_128,
    /// `N = 16`
    Half_Mem_256,
    /// `N = 32`
    Half_Mem_512,
    /// `N = 4`
    Quarter_Mem_128,
    /// `N = 8`
    Quarter_Mem_256,
    /// `N = 16`
    Quarter_Mem_512,
    /// `N = 2`
    Eighth_Mem_128,
    /// `N = 4`
    Eighth_Mem_256,
    /// `N = 8`
    Eighth_Mem_512,
    /// `N = 16`
    Mem128,
    /// `N = 8`
    MOVDDUP_128,
    /// `N = 32`
    MOVDDUP_256,
    /// `N = 64`
    MOVDDUP_512,
}

/// The disp8 scale factor `N` selected by an EVEX tuple type, as a function
/// of the tuple type, the EVEX `W` bit and the broadcast bit.
pub open spec fn tuple_n_spec(t: TupleType, w: bool, bcst: bool) -> u64 {
    match t {
        TupleType::NoTuple => 1,
        TupleType::Full_128 => if bcst { if w { 8 } else { 4 } } else { 16 },
        TupleType::Full_256 => if bcst { if w { 8 } else { 4 } } else { 32 },
        TupleType::Full_512 => if bcst { if w { 8 } else { 4 } } else { 64 },
        TupleType::Half_128 => if bcst { 4 } else { 8 },
        TupleType::Half_256 => if bcst { 4 } else { 16 },
        TupleType::Half_512 => if bcst { 4 } else { 32 },
        TupleType::Full_Mem_128 => 16,
        TupleType::Full_Mem_256 => 32,
        TupleType::Full_Mem_512 => 64,
        TupleType::Tuple1_Scalar => if w { 8 } else { 4 },
        TupleType::Tuple1_Scalar_1 => 1,
        TupleType::Tuple1_Scalar_2 => 2,
        TupleType::Tuple1_Scalar_4 => 4,
        TupleType::Tuple1_Scalar_8 => 8,
        TupleType::Tuple1_Fixed_4 => 4,
        TupleType::Tuple1_Fixed_8 => 8,
        TupleType::Tuple2 => if w { 16 } else { 8 },
        TupleType::Tuple4 => if w { 32 } else { 16 },
        TupleType::Tuple8 => 32,
        TupleType::Tuple1_4X => 16,
        TupleType::Half_Mem_128 => 8,
        TupleType::Half_Mem_256 => 16,
        TupleType::Half_Mem_512 => 32,
        TupleType::Quarter_Mem_128 => 4,
        TupleType::Quarter_Mem_256 => 8,
        TupleType::Quarter_Mem_512 => 16,
        TupleType::Eighth_Mem_128 => 2,
        TupleType::Eighth_Mem_256 => 4,
        TupleType::Eighth_Mem_512 => 8,
        TupleType::Mem128 => 16,
        TupleType::MOVDDUP_128 => 8,
        TupleType::MOVDDUP_256 => 32,
        TupleType::MOVDDUP_512 => 64,
    }
}

/// Returns the disp8 scale factor `N` for an EVEX tuple type.
#[verifier::when_used_as_spec(tuple_n_spec)]
pub fn tuple_n(t: TupleType, w: bool, bcst: bool) -> (r: u64)
    ensures
        r == tuple_n_spec(t, w, bcst),
        1 <= r <= 64,
{
    match t {
        TupleType::NoTuple => 1,
        TupleType::Full_128 => if bcst { if w { 8 } else { 4 } } else { 16 },
        TupleType::Full_256 => if bcst { if w { 8 } else { 4 } } else { 32 },
        TupleType::Full_512 => if bcst { if w { 8 } else { 4 } } else { 64 },
        TupleType::Half_128 => if bcst { 4 } else { 8 },
        TupleType::Half_256 => if bcst { 4 } else { 16 },
        TupleType::Half_512 => if bcst { 4 } else { 32 },
        TupleType::Full_Mem_128 => 16,
        TupleType::Full_Mem_256 => 32,
        TupleType::Full_Mem_512 => 64,
        TupleType::Tuple1_Scalar => if w { 8 } else { 4 },
        TupleType::Tuple1_Scalar_1 => 1,
        TupleType::Tuple1_Scalar_2 => 2,
        TupleType::Tuple1_Scalar_4 => 4,
        TupleType::Tuple1_Scalar_8 => 8,
        TupleType::Tuple1_Fixed_4 => 4,
        TupleType::Tuple1_Fixed_8 => 8,
        TupleType::Tuple2 => if w { 16 } else { 8 },
        TupleType::Tuple4 => if w { 32 } else { 16 },
        TupleType::Tuple8 => 32,
        TupleType::Tuple1_4X => 16,
        TupleType::Half_Mem_128 => 8,
        TupleType::Half_Mem_256 => 16,
        TupleType::Half_Mem_512 => 32,
        TupleType::Quarter_Mem_128 => 4,
        TupleType::Quarter_Mem_256 => 8,
        TupleType::Quarter_Mem_512 => 16,
        TupleType::Eighth_Mem_128 => 2,
        TupleType::Eighth_Mem_256 => 4,
        TupleType::Eighth_Mem_512 => 8,
        TupleType::Mem128 => 16,
        TupleType::MOVDDUP_128 => 8,
        TupleType::MOVDDUP_256 => 32,
        TupleType::MOVDDUP_512 => 64,
    }
}

} // verus!
