//! The decoder: drives prefix scan, escape classification, table lookup and
//! operand decode over a caller-supplied buffer, one instruction per call.
//! The whole pipeline is specified by the functional model `decode_model`,
//! and `Decoder::decode` is proved to return exactly the model's answer.

use vstd::prelude::*;
use crate::errors::{DecodeError, DecodeFailure};
use crate::head::{fetch_head, fetch_head_x, lemma_fetch_head_bounds};
use crate::instruction::Instruction;
use crate::nums::{wadd, wadd_spec};
use crate::operands::{decode_operands, decode_operands_x, lemma_ops_bounds};
use crate::prefix::{prefixes_none, scan_prefixes, scan_prefixes_x, lemma_scan_bounds};
use crate::reader::MAX_INSN_LEN;
use crate::table::{lookup, lookup_spec};

verus! {

/// The decode pipeline after the prefix scan: classify the opcode head,
/// look it up, decode the operands.
pub open spec fn decode_tail(
    b: Seq<u8>,
    start: int,
    p1: int,
    pfx: crate::prefix::Prefixes,
    bitness: u32,
    options: u32,
    ip: u64,
) -> Result<(Instruction, int), (DecodeError, int)> {
    match fetch_head(b, start, p1, bitness, pfx) {
        Err(e) => Err(e),
        Ok((head, p2)) => match lookup_spec(head, pfx, bitness, options) {
            None => Err((DecodeError::InvalidInstruction, p2)),
            Some(desc) => decode_operands(b, start, p2, desc, head, pfx, bitness, ip),
        },
    }
}

/// The functional model of one decode call: the result of decoding the
/// bytes of `b` from `start` on, in `bitness`-bit code with the given
/// options, for an instruction whose address is `ip`.
pub open spec fn decode_model(b: Seq<u8>, start: int, bitness: u32, options: u32, ip: u64)
    -> Result<Instruction, DecodeFailure> {
    match scan_prefixes(b, start, start, bitness, prefixes_none()) {
        Err((e, q)) => Err(DecodeFailure { error: e, length: (q - start) as u64 }),
        Ok((pfx, p1)) => match decode_tail(b, start, p1, pfx, bitness, options, ip) {
            Err((e, q)) => Err(DecodeFailure { error: e, length: (q - start) as u64 }),
            Ok((inst, q)) => Ok(inst),
        },
    }
}

/// Bounds of the post-scan pipeline.
pub proof fn lemma_tail_bounds(
    b: Seq<u8>,
    start: int,
    p1: int,
    pfx: crate::prefix::Prefixes,
    bitness: u32,
    options: u32,
    ip: u64,
)
    requires
        0 <= start <= p1 <= b.len(),
        p1 <= start + MAX_INSN_LEN,
    ensures
        decode_tail(b, start, p1, pfx, bitness, options, ip) matches Ok((i, q)) ==> {
            &&& p1 <= q && q <= b.len() && q <= start + MAX_INSN_LEN
            &&& i.length == q - start
            &&& i.ip == ip
        },
        decode_tail(b, start, p1, pfx, bitness, options, ip) matches Err((e, q)) ==>
            p1 <= q && q <= b.len() && q <= start + MAX_INSN_LEN,
{
    lemma_fetch_head_bounds(b, start, p1, bitness, pfx);
    match fetch_head(b, start, p1, bitness, pfx) {
        Ok((head, p2)) => match lookup_spec(head, pfx, bitness, options) {
            Some(desc) => {
                lemma_ops_bounds(b, start, p2, desc, head, pfx, bitness, ip);
            },
            _ => {},
        },
        _ => {},
    }
}

/// Decodes one instruction of `b` starting at `start`: the model's answer
/// paired with the position the cursor should move to.
#[verifier::rlimit(100)]
#[verifier::spinoff_prover]
pub fn decode_at(b: &Vec<u8>, start: usize, bitness: u32, options: u32, ip: u64) -> (r: (
    Result<Instruction, DecodeFailure>,
    usize,
))
    requires
        b@.len() <= usize::MAX - 64,
        start <= b@.len(),
    ensures
        r.0 == decode_model(b@, start as int, bitness, options, ip),
        start <= r.1 <= b@.len(),
        r.1 <= start + MAX_INSN_LEN,
        r.0 matches Ok(i) ==> i.length == r.1 - start && i.ip == ip,
        r.0 matches Err(f) ==> f.length == r.1 - start,
{
    proof {
        lemma_scan_bounds(b@, start as int, start as int, bitness, prefixes_none());
    }
    let (pfx, p1) = match scan_prefixes_x(b, start, bitness) {
        Err((e, q)) => {
            return (Err(DecodeFailure { error: e, length: (q - start) as u64 }), q);
        },
        Ok(t) => t,
    };
    proof {
        lemma_tail_bounds(b@, start as int, p1 as int, pfx, bitness, options, ip);
    }
    match decode_tail_x(b, start, p1, pfx, bitness, options, ip) {
        Err((e, q)) => (Err(DecodeFailure { error: e, length: (q - start) as u64 }), q),
        Ok((inst, q)) => (Ok(inst), q),
    }
}

/// Runs the post-scan pipeline, exactly as the model `decode_tail` does.
#[verifier::rlimit(100)]
#[verifier::spinoff_prover]
pub fn decode_tail_x(
    b: &Vec<u8>,
    start: usize,
    p1: usize,
    pfx: crate::prefix::Prefixes,
    bitness: u32,
    options: u32,
    ip: u64,
) -> (r: Result<(Instruction, usize), (DecodeError, usize)>)
    requires
        crate::reader::pos_wf(b@, start as int, p1 as int),
    ensures
        crate::reader::corresponds(
            r,
            decode_tail(b@, start as int, p1 as int, pfx, bitness, options, ip),
        ),
{
    let (head, p2) = match fetch_head_x(b, start, p1, bitness, pfx) {
        Err(e) => {
            return Err(e);
        },
        Ok(t) => t,
    };
    proof {
        lemma_fetch_head_bounds(b@, start as int, p1 as int, bitness, pfx);
    }
    match lookup(head, pfx, bitness, options) {
        None => Err((DecodeError::InvalidInstruction, p2)),
        Some(desc) => decode_operands_x(b, start, p2, desc, head, pfx, bitness, ip),
    }
}

/// An instruction decoder over one buffer: the cursor position, the code
/// size, the quirk options and the address of the buffer's first byte.
pub struct Decoder {
    /// The input buffer (read-only to the decoder).
    pub bytes: Vec<u8>,
    /// Current read position.
    pub pos: usize,
    /// Code size: 16, 32 or 64.
    pub bitness: u32,
    /// Decoder options bitmask.
    pub options: u32,
    /// Virtual address of `bytes[0]`.
    pub ip_base: u64,
}

impl Decoder {
    /// The decoder's invariant: a valid bitness, the cursor inside the
    /// buffer, and headroom for position arithmetic.
    pub open spec fn wf(self) -> bool {
        &&& self.bytes@.len() <= usize::MAX - 64
        &&& self.pos <= self.bytes@.len()
        &&& self.bitness == 16 || self.bitness == 32 || self.bitness == 64
    }

    /// Creates a decoder over `data`, starting at its first byte.
    pub fn new(bitness: u32, data: Vec<u8>, ip: u64, options: u32) -> (r: Decoder)
        requires
            bitness == 16 || bitness == 32 || bitness == 64,
            data@.len() <= usize::MAX - 64,
        ensures
            r.wf(),
            r.bytes == data,
            r.pos == 0,
            r.bitness == bitness,
            r.options == options,
            r.ip_base == ip,
    {
        Decoder { bytes: data, pos: 0, bitness, options, ip_base: ip }
    }

    /// The current cursor position.
    pub fn position(&self) -> (r: usize)
        ensures
            r == self.pos,
    {
        self.pos
    }

    /// Moves the cursor (caller resynchronization policy).
    pub fn set_position(&mut self, p: usize)
        requires
            old(self).wf(),
            p <= old(self).bytes@.len(),
        ensures
            final(self).wf(),
            *final(self) == (Decoder { pos: p, ..*old(self) }),
    {
        self.pos = p;
    }

    /// Whether bytes remain to decode.
    pub fn can_decode(&self) -> (r: bool)
        requires
            self.wf(),
        ensures
            r == (self.pos < self.bytes@.len()),
    {
        self.pos < self.bytes.len()
    }

    /// Decodes one instruction at the cursor.  The result is exactly the
    /// functional model's answer for the same bytes; the cursor advances by
    /// the consumed length, which never exceeds 15 bytes nor the bytes
    /// available, on failure as on success.
    #[verifier::rlimit(100)]
    #[verifier::spinoff_prover]
    pub fn decode(&mut self) -> (r: Result<Instruction, DecodeFailure>)
        requires
            old(self).wf(),
        ensures
            final(self).wf(),
            final(self).bytes == old(self).bytes,
            final(self).bitness == old(self).bitness,
            final(self).options == old(self).options,
            final(self).ip_base == old(self).ip_base,
            r == decode_model(
                old(self).bytes@,
                old(self).pos as int,
                old(self).bitness,
                old(self).options,
                wadd_spec(old(self).ip_base, old(self).pos as u64),
            ),
            r matches Ok(i) ==> {
                &&& i.length <= MAX_INSN_LEN
                &&& old(self).pos + i.length <= old(self).bytes@.len()
                &&& final(self).pos == old(self).pos + i.length
                &&& i.ip == wadd_spec(old(self).ip_base, old(self).pos as u64)
            },
            r matches Err(f) ==> {
                &&& f.length <= MAX_INSN_LEN
                &&& old(self).pos + f.length <= old(self).bytes@.len()
                &&& final(self).pos == old(self).pos + f.length
            },
    {
        let start = self.pos;
        let insn_ip = wadd(self.ip_base, start as u64);
        let (r, q) = decode_at(&self.bytes, start, self.bitness, self.options, insn_ip);
        self.pos = q;
        r
    }
}

} // verus!
