//! The functional model of the decoder's byte cursor: bounds-checked,
//! forward-only little-endian reads over the input sequence.
//!
//! Every read is measured against two limits: the end of the input (crossing
//! it is a truncated instruction) and the 15-byte architectural cap counted
//! from the first byte of the instruction (crossing it means the encoding is
//! too long).  A read result carries the new position; a failure carries the
//! position reached before the failing read, which is the number of bytes
//! the instruction had consumed.

use vstd::prelude::*;
use crate::errors::DecodeError;

verus! {

/// The architectural limit on the length of one x86 instruction.
pub const MAX_INSN_LEN: usize = 15;

/// Reads one byte at `p`; the instruction started at `start`.
pub open spec fn rd8(b: Seq<u8>, start: int, p: int) -> Result<(u8, int), (DecodeError, int)> {
    if p + 1 > start + MAX_INSN_LEN {
        Err((DecodeError::InstructionTooLong, p))
    } else if p + 1 > b.len() {
        Err((DecodeError::TruncatedInput, p))
    } else {
        Ok((b[p], p + 1))
    }
}

/// Reads a little-endian 16-bit value.
pub open spec fn rd16(b: Seq<u8>, start: int, p: int) -> Result<(u16, int), (DecodeError, int)> {
    match rd8(b, start, p) {
        Err(e) => Err(e),
        Ok((v0, p1)) => match rd8(b, start, p1) {
            Err(e) => Err(e),
            Ok((v1, p2)) => Ok((((v0 as u16) + (v1 as u16) * 0x100) as u16, p2)),
        },
    }
}

/// Reads a little-endian 32-bit value.
pub open spec fn rd32(b: Seq<u8>, start: int, p: int) -> Result<(u32, int), (DecodeError, int)> {
    match rd16(b, start, p) {
        Err(e) => Err(e),
        Ok((v0, p1)) => match rd16(b, start, p1) {
            Err(e) => Err(e),
            Ok((v1, p2)) => Ok((((v0 as u32) + (v1 as u32) * 0x10000) as u32, p2)),
        },
    }
}

/// Reads a little-endian 64-bit value.
pub open spec fn rd64(b: Seq<u8>, start: int, p: int) -> Result<(u64, int), (DecodeError, int)> {
    match rd32(b, start, p) {
        Err(e) => Err(e),
        Ok((v0, p1)) => match rd32(b, start, p1) {
            Err(e) => Err(e),
            Ok((v1, p2)) => Ok((((v0 as u64) + (v1 as u64) * 0x100000000) as u64, p2)),
        },
    }
}

/// A successful read lands between the old position and both limits; a
/// failed read does not move.
pub proof fn lemma_rd8_bounds(b: Seq<u8>, start: int, p: int)
    ensures
        rd8(b, start, p) matches Ok((v, q)) ==>
            q == p + 1 && q <= b.len() && q <= start + MAX_INSN_LEN,
        rd8(b, start, p) matches Err((e, q)) ==> q == p,
{
}

/// Reading from a truncated copy of the input: a read that stayed below the
/// cut sees the same bytes; a read that crossed it reports truncation.
pub proof fn lemma_rd8_trunc(b: Seq<u8>, start: int, p: int, k: int)
    requires
        0 <= p,
        0 <= k <= b.len(),
    ensures
        rd8(b, start, p) matches Ok((v, q)) ==> {
            &&& q <= k ==> rd8(b.take(k), start, p) == rd8(b, start, p)
            &&& k < q ==> rd8(b.take(k), start, p)
                == Err::<(u8, int), (DecodeError, int)>((DecodeError::TruncatedInput, p))
        },
        rd8(b, start, p) matches Err((e, q)) ==> rd8(b.take(k), start, p) == rd8(b, start, p),
{
    assert(b.take(k).len() == k);
    match rd8(b, start, p) {
        Ok((v, q)) => {
            if q <= k {
                assert(b.take(k)[p] == b[p]);
            }
        },
        _ => {},
    }
}

/// `lemma_rd8_trunc`, lifted to 16-bit reads.
pub proof fn lemma_rd16_trunc(b: Seq<u8>, start: int, p: int, k: int)
    requires
        0 <= p,
        0 <= k <= b.len(),
    ensures
        rd16(b, start, p) matches Ok((v, q)) ==> {
            &&& q <= k ==> rd16(b.take(k), start, p) == rd16(b, start, p)
            &&& k < q ==> (rd16(b.take(k), start, p) matches Err((e, qe))
                && e == DecodeError::TruncatedInput && p <= qe < q)
        },
{
    lemma_rd8_trunc(b, start, p, k);
    match rd8(b, start, p) {
        Ok((v0, p1)) => {
            lemma_rd8_trunc(b, start, p1, k);
        },
        _ => {},
    }
}

/// `lemma_rd8_trunc`, lifted to 32-bit reads.
pub proof fn lemma_rd32_trunc(b: Seq<u8>, start: int, p: int, k: int)
    requires
        0 <= p,
        0 <= k <= b.len(),
    ensures
        rd32(b, start, p) matches Ok((v, q)) ==> {
            &&& q <= k ==> rd32(b.take(k), start, p) == rd32(b, start, p)
            &&& k < q ==> (rd32(b.take(k), start, p) matches Err((e, qe))
                && e == DecodeError::TruncatedInput && p <= qe < q)
        },
{
    lemma_rd16_trunc(b, start, p, k);
    match rd16(b, start, p) {
        Ok((v0, p1)) => {
            lemma_rd16_trunc(b, start, p1, k);
            lemma_rd16_bounds(b, start, p);
            lemma_rd16_bounds(b, start, p1);
        },
        _ => {},
    }
}

/// `lemma_rd8_trunc`, lifted to 64-bit reads.
pub proof fn lemma_rd64_trunc(b: Seq<u8>, start: int, p: int, k: int)
    requires
        0 <= p,
        0 <= k <= b.len(),
    ensures
        rd64(b, start, p) matches Ok((v, q)) ==> {
            &&& q <= k ==> rd64(b.take(k), start, p) == rd64(b, start, p)
            &&& k < q ==> (rd64(b.take(k), start, p) matches Err((e, qe))
                && e == DecodeError::TruncatedInput && p <= qe < q)
        },
{
    lemma_rd32_trunc(b, start, p, k);
    match rd32(b, start, p) {
        Ok((v0, p1)) => {
            lemma_rd32_trunc(b, start, p1, k);
            lemma_rd32_bounds(b, start, p);
            lemma_rd32_bounds(b, start, p1);
        },
        _ => {},
    }
}

/// `lemma_rd8_bounds`, lifted to 16-bit reads.
pub proof fn lemma_rd16_bounds(b: Seq<u8>, start: int, p: int)
    ensures
        rd16(b, start, p) matches Ok((v, q)) ==>
            q == p + 2 && q <= b.len() && q <= start + MAX_INSN_LEN,
        rd16(b, start, p) matches Err((e, q)) ==> p <= q <= p + 1,
{
}

/// `lemma_rd8_bounds`, lifted to 32-bit reads.
pub proof fn lemma_rd32_bounds(b: Seq<u8>, start: int, p: int)
    ensures
        rd32(b, start, p) matches Ok((v, q)) ==>
            q == p + 4 && q <= b.len() && q <= start + MAX_INSN_LEN,
        rd32(b, start, p) matches Err((e, q)) ==> p <= q <= p + 3,
{
}

/// `lemma_rd8_bounds`, lifted to 64-bit reads.
pub proof fn lemma_rd64_bounds(b: Seq<u8>, start: int, p: int)
    ensures
        rd64(b, start, p) matches Ok((v, q)) ==>
            q == p + 8 && q <= b.len() && q <= start + MAX_INSN_LEN,
        rd64(b, start, p) matches Err((e, q)) ==> p <= q <= p + 7,
{
}

/// Correspondence between an executable phase result (usize positions) and
/// its functional model (int positions).
pub open spec fn corresponds<T>(
    r: Result<(T, usize), (DecodeError, usize)>,
    m: Result<(T, int), (DecodeError, int)>,
) -> bool {
    match (r, m) {
        (Ok((v, q)), Ok((mv, mq))) => v == mv && q == mq,
        (Err((e, q)), Err((me, mq))) => e == me && q == mq,
        _ => false,
    }
}

/// Bounds that every executable read and phase keeps: positions fit the
/// input and leave headroom for position arithmetic.
pub open spec fn pos_wf(b: Seq<u8>, start: int, p: int) -> bool {
    &&& b.len() <= usize::MAX - 64
    &&& 0 <= start <= p <= b.len()
    &&& p <= start + MAX_INSN_LEN
}

/// Reads one byte of `b` at `p`, exactly as the model `rd8` does.
pub fn read_u8(b: &Vec<u8>, start: usize, p: usize) -> (r: Result<(u8, usize), (DecodeError, usize)>)
    requires
        pos_wf(b@, start as int, p as int),
    ensures
        corresponds(r, rd8(b@, start as int, p as int)),
{
    if p + 1 > start + MAX_INSN_LEN {
        Err((DecodeError::InstructionTooLong, p))
    } else if p + 1 > b.len() {
        Err((DecodeError::TruncatedInput, p))
    } else {
        Ok((b[p], p + 1))
    }
}

/// Reads a little-endian 16-bit value, exactly as the model `rd16` does.
pub fn read_u16(b: &Vec<u8>, start: usize, p: usize) -> (r: Result<(u16, usize), (DecodeError, usize)>)
    requires
        pos_wf(b@, start as int, p as int),
    ensures
        corresponds(r, rd16(b@, start as int, p as int)),
{
    let (v0, p1) = match read_u8(b, start, p) {
        Ok(t) => t,
        Err(e) => {
            return Err(e);
        },
    };
    let (v1, p2) = match read_u8(b, start, p1) {
        Ok(t) => t,
        Err(e) => {
            return Err(e);
        },
    };
    Ok(((v0 as u16) + (v1 as u16) * 0x100, p2))
}

/// Reads a little-endian 32-bit value, exactly as the model `rd32` does.
pub fn read_u32(b: &Vec<u8>, start: usize, p: usize) -> (r: Result<(u32, usize), (DecodeError, usize)>)
    requires
        pos_wf(b@, start as int, p as int),
    ensures
        corresponds(r, rd32(b@, start as int, p as int)),
{
    let (v0, p1) = match read_u16(b, start, p) {
        Ok(t) => t,
        Err(e) => {
            return Err(e);
        },
    };
    let (v1, p2) = match read_u16(b, start, p1) {
        Ok(t) => t,
        Err(e) => {
            return Err(e);
        },
    };
    Ok(((v0 as u32) + (v1 as u32) * 0x10000, p2))
}

/// Reads a little-endian 64-bit value, exactly as the model `rd64` does.
pub fn read_u64(b: &Vec<u8>, start: usize, p: usize) -> (r: Result<(u64, usize), (DecodeError, usize)>)
    requires
        pos_wf(b@, start as int, p as int),
    ensures
        corresponds(r, rd64(b@, start as int, p as int)),
{
    let (v0, p1) = match read_u32(b, start, p) {
        Ok(t) => t,
        Err(e) => {
            return Err(e);
        },
    };
    let (v1, p2) = match read_u32(b, start, p1) {
        Ok(t) => t,
        Err(e) => {
            return Err(e);
        },
    };
    Ok(((v0 as u64) + (v1 as u64) * 0x100000000, p2))
}

} // verus!
