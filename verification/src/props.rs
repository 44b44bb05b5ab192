//! The decoder's global properties, proved of the functional model (and so,
//! through `Decoder::decode`'s contract, of the executable decoder).

use vstd::prelude::*;
use crate::decoder::{decode_model, decode_tail, lemma_tail_bounds};
use crate::enums::{EncodingKind, TupleType, tuple_n_spec};
use crate::errors::{DecodeError, DecodeFailure};
use crate::head::{fetch_head, head_legacy_spec, vex_banned_spec, lemma_fetch_head_bounds, lemma_fetch_head_trunc};
use crate::nums::{scaled_disp8_spec, signed8};
use crate::operands::{decode_operands, lemma_ops_bounds, lemma_ops_trunc};
use crate::prefix::{prefixes_none, scan_prefixes, Prefixes, lemma_scan_bounds, lemma_scan_trunc};
use crate::reader::{rd8, MAX_INSN_LEN};
use crate::table::lookup_spec;

verus! {

/// Truncation behaviour of the post-scan pipeline.
#[verifier::rlimit(100)]
#[verifier::spinoff_prover]
pub proof fn lemma_tail_trunc(
    b: Seq<u8>,
    start: int,
    p1: int,
    pfx: Prefixes,
    bitness: u32,
    options: u32,
    ip: u64,
    k: int,
)
    requires
        0 <= start <= p1 <= k,
        k <= b.len(),
        p1 <= start + MAX_INSN_LEN,
    ensures
        decode_tail(b, start, p1, pfx, bitness, options, ip) matches Ok((i, q)) ==>
            k < q ==> (decode_tail(b.take(k), start, p1, pfx, bitness, options, ip)
                matches Err((e, qe)) && e == DecodeError::TruncatedInput && p1 <= qe < q),
{
    lemma_fetch_head_trunc(b, start, p1, bitness, pfx, k);
    lemma_fetch_head_bounds(b, start, p1, bitness, pfx);
    match fetch_head(b, start, p1, bitness, pfx) {
        Ok((head, p2)) => {
            match lookup_spec(head, pfx, bitness, options) {
                Some(desc) => {
                    lemma_ops_bounds(b, start, p2, desc, head, pfx, bitness, ip);
                    if p2 <= k {
                        lemma_ops_trunc(b, start, p2, desc, head, pfx, bitness, ip, k);
                    }
                },
                _ => {},
            }
        },
        _ => {},
    }
}

/// Truncation monotonicity: if the decoder accepts an instruction of length
/// `L`, then on any strict prefix of those bytes (`k - start < L`) it
/// reports `TruncatedInput` — never a different, wrong instruction.
#[verifier::rlimit(100)]
#[verifier::spinoff_prover]
pub proof fn lemma_truncation_monotonicity(
    b: Seq<u8>,
    start: int,
    bitness: u32,
    options: u32,
    ip: u64,
    k: int,
)
    requires
        0 <= start <= k <= b.len(),
        decode_model(b, start, bitness, options, ip) matches Ok(i) && k - start < i.length,
    ensures
        decode_model(b.take(k), start, bitness, options, ip) matches Err(f)
            && f.error == DecodeError::TruncatedInput,
{
    lemma_scan_bounds(b, start, start, bitness, prefixes_none());
    lemma_scan_trunc(b, start, start, bitness, prefixes_none(), k);
    match scan_prefixes(b, start, start, bitness, prefixes_none()) {
        Ok((pfx, p1)) => {
            lemma_tail_bounds(b, start, p1, pfx, bitness, options, ip);
            if p1 + 1 <= k {
                lemma_tail_trunc(b, start, p1, pfx, bitness, options, ip, k);
            }
        },
        _ => {},
    }
}

/// The ambiguous-escape rule in 16/32-bit code: `C5`/`62` begin a VEX/EVEX
/// form only when the next byte's top two bits are `11`; otherwise the byte
/// is consumed as a plain one-byte-map opcode and the next byte is left for
/// the legacy instruction's ModRM.
#[verifier::rlimit(100)]
#[verifier::spinoff_prover]
pub proof fn lemma_escape_ambiguity(b: Seq<u8>, start: int, p: int, pfx: Prefixes, bitness: u32)
    requires
        0 <= p,
        p + 2 <= b.len(),
        p + 2 <= start + MAX_INSN_LEN,
        b[p] == 0xC5 || b[p] == 0x62,
        bitness == 16 || bitness == 32,
    ensures
        b[p + 1] & 0xC0 != 0xC0 ==> fetch_head(b, start, p, bitness, pfx) == Ok::<
            (crate::head::Head, int),
            (DecodeError, int),
        >((head_legacy_spec(pfx, 1, b[p]), p + 1)),
        (b[p + 1] & 0xC0 == 0xC0 && !vex_banned_spec(pfx)) ==> (fetch_head(
            b,
            start,
            p,
            bitness,
            pfx,
        ) matches Ok((h, q)) ==> h.enc == if b[p] == 0xC5 {
            EncodingKind::VEX
        } else {
            EncodingKind::EVEX
        }),
{
}

/// EVEX compressed-displacement scaling: for any tuple type with factor
/// `N = tuple_n_spec(..)`, the stored displacement for a disp8 byte `v` is
/// the 64-bit two's-complement form of `signed8(v) * N`.
#[verifier::rlimit(100)]
#[verifier::spinoff_prover]
pub proof fn lemma_disp8_scaling(v: u8, t: TupleType, w: bool, bcst: bool)
    ensures
        signed8(v) >= 0 ==> scaled_disp8_spec(v, tuple_n_spec(t, w, bcst)) == signed8(v)
            * tuple_n_spec(t, w, bcst),
        signed8(v) < 0 ==> scaled_disp8_spec(v, tuple_n_spec(t, w, bcst)) == 0x1_0000_0000_0000_0000
            + signed8(v) * tuple_n_spec(t, w, bcst),
{
    let n = tuple_n_spec(t, w, bcst);
    assert(1 <= n <= 64);
    if v < 0x80 {
        assert(v as int * n <= 0x7f * 64) by (nonlinear_arith)
            requires
                v < 0x80 && n <= 64,
        ;
    } else {
        assert(1 * 1 <= (0x100 - v as int) * n <= 0x80 * 64) by (nonlinear_arith)
            requires
                0x80 <= v < 0x100 && 1 <= n <= 64,
        ;
        assert((0x100 - v as int) * n == (0 - signed8(v)) * n);
        assert((0 - signed8(v)) * n == 0 - signed8(v) * n) by (nonlinear_arith);
    }
}

} // verus!
