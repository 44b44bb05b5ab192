//! Sign-extension and wrapping arithmetic used by displacement, immediate
//! and branch-target computation.  Each spec function is written over exact
//! integer arithmetic (no truncation), and the executable twins mirror it.

use vstd::prelude::*;

verus! {

/// An 8-bit value sign-extended to 16 bits, held zero-extended in a `u64`.
pub open spec fn sx8_16_spec(v: u8) -> u64 {
    if v < 0x80 {
        v as u64
    } else {
        (v as u64 + 0xFF00) as u64
    }
}

/// Sign-extends an 8-bit value to 16 bits (zero-extended into the `u64`).
#[verifier::when_used_as_spec(sx8_16_spec)]
pub fn sx8_16(v: u8) -> (r: u64)
    ensures
        r == sx8_16_spec(v),
{
    if v < 0x80 {
        v as u64
    } else {
        v as u64 + 0xFF00
    }
}

/// An 8-bit value sign-extended to 32 bits, held zero-extended in a `u64`.
pub open spec fn sx8_32_spec(v: u8) -> u64 {
    if v < 0x80 {
        v as u64
    } else {
        (v as u64 + 0xFFFF_FF00) as u64
    }
}

/// Sign-extends an 8-bit value to 32 bits (zero-extended into the `u64`).
#[verifier::when_used_as_spec(sx8_32_spec)]
pub fn sx8_32(v: u8) -> (r: u64)
    ensures
        r == sx8_32_spec(v),
{
    if v < 0x80 {
        v as u64
    } else {
        v as u64 + 0xFFFF_FF00
    }
}

/// An 8-bit value sign-extended to 64 bits.
pub open spec fn sx8_64_spec(v: u8) -> u64 {
    if v < 0x80 {
        v as u64
    } else {
        (v as u64 + 0xFFFF_FFFF_FFFF_FF00) as u64
    }
}

/// Sign-extends an 8-bit value to 64 bits.
#[verifier::when_used_as_spec(sx8_64_spec)]
pub fn sx8_64(v: u8) -> (r: u64)
    ensures
        r == sx8_64_spec(v),
{
    if v < 0x80 {
        v as u64
    } else {
        v as u64 + 0xFFFF_FFFF_FFFF_FF00
    }
}

/// A 16-bit value sign-extended to 64 bits.
pub open spec fn sx16_64_spec(v: u16) -> u64 {
    if v < 0x8000 {
        v as u64
    } else {
        (v as u64 + 0xFFFF_FFFF_FFFF_0000) as u64
    }
}

/// Sign-extends a 16-bit value to 64 bits.
#[verifier::when_used_as_spec(sx16_64_spec)]
pub fn sx16_64(v: u16) -> (r: u64)
    ensures
        r == sx16_64_spec(v),
{
    if v < 0x8000 {
        v as u64
    } else {
        v as u64 + 0xFFFF_FFFF_FFFF_0000
    }
}

/// A 32-bit value sign-extended to 64 bits.
pub open spec fn sx32_64_spec(v: u32) -> u64 {
    if v < 0x8000_0000 {
        v as u64
    } else {
        (v as u64 + 0xFFFF_FFFF_0000_0000) as u64
    }
}

/// Sign-extends a 32-bit value to 64 bits.
#[verifier::when_used_as_spec(sx32_64_spec)]
pub fn sx32_64(v: u32) -> (r: u64)
    ensures
        r == sx32_64_spec(v),
{
    if v < 0x8000_0000 {
        v as u64
    } else {
        v as u64 + 0xFFFF_FFFF_0000_0000
    }
}

/// 64-bit wrapping addition (two's-complement address arithmetic).
pub open spec fn wadd_spec(a: u64, b: u64) -> u64 {
    if a + b > 0xFFFF_FFFF_FFFF_FFFF {
        (a + b - 0x1_0000_0000_0000_0000) as u64
    } else {
        (a + b) as u64
    }
}

/// Adds two addresses with 64-bit wraparound.
#[verifier::when_used_as_spec(wadd_spec)]
pub fn wadd(a: u64, b: u64) -> (r: u64)
    ensures
        r == wadd_spec(a, b),
{
    a.wrapping_add(b)
}

/// The signed value of a byte, for stating what a stored sign-extended or
/// scaled field means.
pub open spec fn signed8(v: u8) -> int {
    if v < 0x80 {
        v as int
    } else {
        v as int - 0x100
    }
}

/// The disp8 value `v` scaled by the EVEX compressed-displacement factor
/// `n`, as the 64-bit two's-complement form of `signed8(v) * n`.
pub open spec fn scaled_disp8_spec(v: u8, n: u64) -> u64 {
    if v < 0x80 {
        (v as u64 * n) as u64
    } else {
        (0x1_0000_0000_0000_0000 - (0x100 - v as int) * n) as u64
    }
}

/// Scales a compressed 8-bit displacement by the tuple-type factor `n`.
#[verifier::when_used_as_spec(scaled_disp8_spec)]
pub fn scaled_disp8(v: u8, n: u64) -> (r: u64)
    requires
        1 <= n <= 64,
    ensures
        r == scaled_disp8_spec(v, n),
{
    if v < 0x80 {
        proof {
            assert(v as u64 * n <= 0x7f * 64) by (nonlinear_arith)
                requires
                    v < 0x80 && n <= 64,
            ;
        }
        (v as u64) * n
    } else {
        proof {
            assert(1 * 1 <= (0x100 - v as u64) * n <= 0x80 * 64) by (nonlinear_arith)
                requires
                    0x80 <= v < 0x100 && 1 <= n <= 64,
            ;
        }
        let m = (0x100 - v as u64) * n;
        0u64.wrapping_sub(m)
    }
}

} // verus!
