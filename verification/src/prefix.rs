//! The legacy-prefix scanner: consumes segment overrides, operand/address
//! size overrides, `lock`, `repne`/`rep` and (in 64-bit code) REX bytes.
//! Later prefixes of a one-per-class group override earlier ones, and a REX
//! prefix is cancelled when any legacy prefix follows it, so only a REX that
//! immediately precedes the opcode counts.

use vstd::prelude::*;
use crate::errors::DecodeError;
use crate::reader::{rd8, lemma_rd8_trunc, MAX_INSN_LEN};
use crate::regs::{REG_CS, REG_DS, REG_ES, REG_FS, REG_GS, REG_NONE, REG_SS};

verus! {

/// The prefix state gathered in front of one instruction.
#[derive(Copy, Clone, Eq, PartialEq, Structural, Debug)]
pub struct Prefixes {
    /// Segment-override register id, or `REG_NONE`.
    pub seg: u32,
    /// A `66` operand-size override is present.
    pub osz: bool,
    /// A `67` address-size override is present.
    pub asz: bool,
    /// A `F0` lock prefix is present.
    pub lock: bool,
    /// A `F2` repne prefix is the last repeat prefix.
    pub f2: bool,
    /// A `F3` rep/repe prefix is the last repeat prefix.
    pub f3: bool,
    /// The REX byte immediately before the opcode, or 0.
    pub rex: u8,
}

/// The empty prefix state.
pub open spec fn prefixes_none() -> Prefixes {
    Prefixes { seg: REG_NONE, osz: false, asz: false, lock: false, f2: false, f3: false, rex: 0 }
}

/// Whether `x` is a legacy prefix byte (segment override, `66`, `67`,
/// `lock`, `repne`, `rep`).
pub open spec fn is_legacy_prefix_spec(x: u8) -> bool {
    x == 0x26 || x == 0x2E || x == 0x36 || x == 0x3E || x == 0x64 || x == 0x65 || x == 0x66
        || x == 0x67 || x == 0xF0 || x == 0xF2 || x == 0xF3
}

/// Whether `x` is consumed as a prefix in `bitness`-bit code (REX bytes are
/// prefixes only in 64-bit code).
pub open spec fn is_prefix_spec(x: u8, bitness: u32) -> bool {
    is_legacy_prefix_spec(x) || (bitness == 64 && x & 0xF0 == 0x40)
}

/// The prefix state after one more prefix byte `x`.  A legacy prefix
/// overrides the earlier member of its class and cancels a pending REX; a
/// REX byte records itself.
pub open spec fn apply_prefix_spec(acc: Prefixes, x: u8, bitness: u32) -> Prefixes {
    if bitness == 64 && x & 0xF0 == 0x40 {
        Prefixes { rex: x, ..acc }
    } else if x == 0x26 {
        Prefixes { seg: REG_ES, rex: 0, ..acc }
    } else if x == 0x2E {
        Prefixes { seg: REG_CS, rex: 0, ..acc }
    } else if x == 0x36 {
        Prefixes { seg: REG_SS, rex: 0, ..acc }
    } else if x == 0x3E {
        Prefixes { seg: REG_DS, rex: 0, ..acc }
    } else if x == 0x64 {
        Prefixes { seg: REG_FS, rex: 0, ..acc }
    } else if x == 0x65 {
        Prefixes { seg: REG_GS, rex: 0, ..acc }
    } else if x == 0x66 {
        Prefixes { osz: true, rex: 0, ..acc }
    } else if x == 0x67 {
        Prefixes { asz: true, rex: 0, ..acc }
    } else if x == 0xF0 {
        Prefixes { lock: true, rex: 0, ..acc }
    } else if x == 0xF2 {
        Prefixes { f2: true, f3: false, rex: 0, ..acc }
    } else {
        Prefixes { f3: true, f2: false, rex: 0, ..acc }
    }
}

/// Scans prefixes from `p` on.  Returns the gathered state and the position
/// of the first non-prefix byte (peeked, not consumed); fails with
/// truncation if the input ends first, or with the length error if the
/// prefix run would push the instruction past 15 bytes.
pub open spec fn scan_prefixes(b: Seq<u8>, start: int, p: int, bitness: u32, acc: Prefixes)
    -> Result<(Prefixes, int), (DecodeError, int)>
    decreases b.len() - p,
{
    match rd8(b, start, p) {
        Err(e) => Err(e),
        Ok((x, q)) => if is_prefix_spec(x, bitness) {
            scan_prefixes(b, start, q, bitness, apply_prefix_spec(acc, x, bitness))
        } else {
            Ok((acc, p))
        },
    }
}

/// Position bounds of the scanner: it never moves backwards, and on success
/// the peeked opcode byte still lies inside the input and the 15-byte cap.
pub proof fn lemma_scan_bounds(b: Seq<u8>, start: int, p: int, bitness: u32, acc: Prefixes)
    requires
        0 <= p <= b.len(),
        p <= start + MAX_INSN_LEN,
    ensures
        scan_prefixes(b, start, p, bitness, acc) matches Ok((pfx, q)) ==>
            p <= q && q + 1 <= b.len() && q + 1 <= start + MAX_INSN_LEN,
        scan_prefixes(b, start, p, bitness, acc) matches Err((e, q)) ==>
            p <= q <= b.len() && q <= start + MAX_INSN_LEN,
    decreases b.len() - p,
{
    match rd8(b, start, p) {
        Ok((x, q)) => {
            if is_prefix_spec(x, bitness) {
                lemma_scan_bounds(b, start, q, bitness, apply_prefix_spec(acc, x, bitness));
            }
        },
        _ => {},
    }
}

/// Truncation behaviour of the scanner: cutting the input at or before the
/// peeked opcode byte turns a successful scan into a truncation failure, and
/// cutting after it changes nothing.
pub proof fn lemma_scan_trunc(b: Seq<u8>, start: int, p: int, bitness: u32, acc: Prefixes, k: int)
    requires
        0 <= p,
        0 <= k <= b.len(),
    ensures
        scan_prefixes(b, start, p, bitness, acc) matches Ok((pfx, q)) ==> {
            &&& q + 1 <= k ==> scan_prefixes(b.take(k), start, p, bitness, acc)
                == scan_prefixes(b, start, p, bitness, acc)
            &&& k <= q ==> (scan_prefixes(b.take(k), start, p, bitness, acc) matches Err((e, qe))
                && e == DecodeError::TruncatedInput && p <= qe <= q)
        },
    decreases b.len() - p,
{
    lemma_rd8_trunc(b, start, p, k);
    match rd8(b, start, p) {
        Ok((x, q)) => {
            if is_prefix_spec(x, bitness) {
                lemma_scan_trunc(b, start, q, bitness, apply_prefix_spec(acc, x, bitness), k);
                lemma_scan_bounds(b, start, q, bitness, apply_prefix_spec(acc, x, bitness));
            }
        },
        _ => {},
    }
}

/// Returns whether `x` is consumed as a prefix in `bitness`-bit code.
#[verifier::when_used_as_spec(is_prefix_spec)]
pub fn is_prefix(x: u8, bitness: u32) -> (r: bool)
    ensures
        r == is_prefix_spec(x, bitness),
{
    match x {
        0x26 | 0x2E | 0x36 | 0x3E | 0x64 | 0x65 | 0x66 | 0x67 | 0xF0 | 0xF2 | 0xF3 => true,
        _ => bitness == 64 && x & 0xF0 == 0x40,
    }
}

/// Folds one prefix byte into the gathered state.
#[verifier::when_used_as_spec(apply_prefix_spec)]
pub fn apply_prefix(acc: Prefixes, x: u8, bitness: u32) -> (r: Prefixes)
    ensures
        r == apply_prefix_spec(acc, x, bitness),
{
    if bitness == 64 && x & 0xF0 == 0x40 {
        Prefixes { rex: x, ..acc }
    } else if x == 0x26 {
        Prefixes { seg: REG_ES, rex: 0, ..acc }
    } else if x == 0x2E {
        Prefixes { seg: REG_CS, rex: 0, ..acc }
    } else if x == 0x36 {
        Prefixes { seg: REG_SS, rex: 0, ..acc }
    } else if x == 0x3E {
        Prefixes { seg: REG_DS, rex: 0, ..acc }
    } else if x == 0x64 {
        Prefixes { seg: REG_FS, rex: 0, ..acc }
    } else if x == 0x65 {
        Prefixes { seg: REG_GS, rex: 0, ..acc }
    } else if x == 0x66 {
        Prefixes { osz: true, rex: 0, ..acc }
    } else if x == 0x67 {
        Prefixes { asz: true, rex: 0, ..acc }
    } else if x == 0xF0 {
        Prefixes { lock: true, rex: 0, ..acc }
    } else if x == 0xF2 {
        Prefixes { f2: true, f3: false, rex: 0, ..acc }
    } else {
        Prefixes { f3: true, f2: false, rex: 0, ..acc }
    }
}

/// Builds the empty prefix state.
#[verifier::when_used_as_spec(prefixes_none)]
pub fn prefixes_empty() -> (r: Prefixes)
    ensures
        r == prefixes_none(),
{
    Prefixes { seg: REG_NONE, osz: false, asz: false, lock: false, f2: false, f3: false, rex: 0 }
}

/// Scans the prefixes in front of one instruction, exactly as the model
/// `scan_prefixes` does.
pub fn scan_prefixes_x(b: &Vec<u8>, start: usize, bitness: u32) -> (r: Result<
    (Prefixes, usize),
    (DecodeError, usize),
>)
    requires
        crate::reader::pos_wf(b@, start as int, start as int),
    ensures
        crate::reader::corresponds(
            r,
            scan_prefixes(b@, start as int, start as int, bitness, prefixes_none()),
        ),
{
    let mut p = start;
    let mut acc = prefixes_empty();
    loop
        invariant
            crate::reader::pos_wf(b@, start as int, p as int),
            scan_prefixes(b@, start as int, p as int, bitness, acc) == scan_prefixes(
                b@,
                start as int,
                start as int,
                bitness,
                prefixes_none(),
            ),
        decreases b@.len() - p,
    {
        match crate::reader::read_u8(b, start, p) {
            Err(e) => {
                return Err(e);
            },
            Ok((x, q)) => {
                if is_prefix(x, bitness) {
                    acc = apply_prefix(acc, x, bitness);
                    p = q;
                } else {
                    return Ok((acc, p));
                }
            },
        }
    }
}

} // verus!
