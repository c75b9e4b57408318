//! Big-endian layout of the header's integer fields.
//!
//! Every multi-byte field of the on-disk header is stored big-endian so that
//! the format is portable across machine architectures. The spec functions
//! below say what a big-endian field means as a mathematical integer and
//! which bytes an integer is laid out as; the executable functions read and
//! write such fields and are proved against them.

use vstd::arithmetic::div_mod::{
    lemma_div_denominator, lemma_fundamental_div_mod, lemma_mod_bound,
};
use vstd::prelude::*;

verus! {

/// The integer denoted by a 4-byte big-endian sequence.
pub open spec fn be_u32_int(s: Seq<u8>) -> int
    recommends
        s.len() == 4,
{
    s[0] * 0x1000000 + s[1] * 0x10000 + s[2] * 0x100 + s[3]
}

/// The integer denoted by an 8-byte big-endian sequence.
pub open spec fn be_u64_int(s: Seq<u8>) -> int
    recommends
        s.len() == 8,
{
    s[0] * 0x100000000000000 + s[1] * 0x1000000000000 + s[2] * 0x10000000000 + s[3] * 0x100000000
        + s[4] * 0x1000000 + s[5] * 0x10000 + s[6] * 0x100 + s[7]
}

/// The 4-byte big-endian layout of `v`.
pub open spec fn be_u32_bytes(v: u32) -> Seq<u8> {
    seq![
        (v / 0x1000000) as u8,
        ((v / 0x10000) % 0x100) as u8,
        ((v / 0x100) % 0x100) as u8,
        (v % 0x100) as u8,
    ]
}

/// The 8-byte big-endian layout of `v`.
pub open spec fn be_u64_bytes(v: u64) -> Seq<u8> {
    seq![
        (v / 0x100000000000000) as u8,
        ((v / 0x1000000000000) % 0x100) as u8,
        ((v / 0x10000000000) % 0x100) as u8,
        ((v / 0x100000000) % 0x100) as u8,
        ((v / 0x1000000) % 0x100) as u8,
        ((v / 0x10000) % 0x100) as u8,
        ((v / 0x100) % 0x100) as u8,
        (v % 0x100) as u8,
    ]
}

/// Laying an integer out big-endian and reading it back yields the integer.
pub proof fn lemma_be_u32_round_trip(v: u32)
    ensures
        be_u32_int(be_u32_bytes(v)) == v,
{
    lemma_fundamental_div_mod(v as int, 0x100);
    lemma_mod_bound(v as int, 0x100);
    lemma_div_denominator(v as int, 0x100, 0x100);
    lemma_fundamental_div_mod(v as int / 0x100, 0x100);
    lemma_mod_bound(v as int / 0x100, 0x100);
    lemma_div_denominator(v as int, 0x10000, 0x100);
    lemma_fundamental_div_mod(v as int / 0x10000, 0x100);
    lemma_mod_bound(v as int / 0x10000, 0x100);
    assert(v as int / 0x1000000 < 0x100);
}

/// Laying an integer out big-endian and reading it back yields the integer.
pub proof fn lemma_be_u64_round_trip(v: u64)
    ensures
        be_u64_int(be_u64_bytes(v)) == v,
{
    lemma_fundamental_div_mod(v as int, 0x100);
    lemma_mod_bound(v as int, 0x100);
    lemma_div_denominator(v as int, 0x100, 0x100);
    lemma_fundamental_div_mod(v as int / 0x100, 0x100);
    lemma_mod_bound(v as int / 0x100, 0x100);
    lemma_div_denominator(v as int, 0x10000, 0x100);
    lemma_fundamental_div_mod(v as int / 0x10000, 0x100);
    lemma_mod_bound(v as int / 0x10000, 0x100);
    lemma_div_denominator(v as int, 0x1000000, 0x100);
    lemma_fundamental_div_mod(v as int / 0x1000000, 0x100);
    lemma_mod_bound(v as int / 0x1000000, 0x100);
    lemma_div_denominator(v as int, 0x100000000, 0x100);
    lemma_fundamental_div_mod(v as int / 0x100000000, 0x100);
    lemma_mod_bound(v as int / 0x100000000, 0x100);
    lemma_div_denominator(v as int, 0x10000000000, 0x100);
    lemma_fundamental_div_mod(v as int / 0x10000000000, 0x100);
    lemma_mod_bound(v as int / 0x10000000000, 0x100);
    lemma_div_denominator(v as int, 0x1000000000000, 0x100);
    lemma_fundamental_div_mod(v as int / 0x1000000000000, 0x100);
    lemma_mod_bound(v as int / 0x1000000000000, 0x100);
    assert(v as int / 0x100000000000000 < 0x100);
}

/// Reads the big-endian `u32` field stored at `off`.
pub fn be_u32_at(bytes: &[u8], off: usize) -> (r: u32)
    requires
        off + 4 <= bytes@.len(),
    ensures
        r == be_u32_int(bytes@.subrange(off as int, off as int + 4)),
{
    let b0: u32 = bytes[off] as u32;
    let b1: u32 = bytes[off + 1] as u32;
    let b2: u32 = bytes[off + 2] as u32;
    let b3: u32 = bytes[off + 3] as u32;
    b0 * 0x1000000 + b1 * 0x10000 + b2 * 0x100 + b3
}

/// Reads the big-endian `u64` field stored at `off`.
pub fn be_u64_at(bytes: &[u8], off: usize) -> (r: u64)
    requires
        off + 8 <= bytes@.len(),
    ensures
        r == be_u64_int(bytes@.subrange(off as int, off as int + 8)),
{
    let b0: u64 = bytes[off] as u64;
    let b1: u64 = bytes[off + 1] as u64;
    let b2: u64 = bytes[off + 2] as u64;
    let b3: u64 = bytes[off + 3] as u64;
    let b4: u64 = bytes[off + 4] as u64;
    let b5: u64 = bytes[off + 5] as u64;
    let b6: u64 = bytes[off + 6] as u64;
    let b7: u64 = bytes[off + 7] as u64;
    b0 * 0x100000000000000 + b1 * 0x1000000000000 + b2 * 0x10000000000 + b3 * 0x100000000
        + b4 * 0x1000000 + b5 * 0x10000 + b6 * 0x100 + b7
}

/// Appends the 4-byte big-endian layout of `v` to `out`.
pub fn push_be_u32(out: &mut Vec<u8>, v: u32)
    ensures
        final(out)@ == old(out)@ + be_u32_bytes(v),
{
    out.push((v / 0x1000000) as u8);
    out.push(((v / 0x10000) % 0x100) as u8);
    out.push(((v / 0x100) % 0x100) as u8);
    out.push((v % 0x100) as u8);
    proof {
        assert(out@ =~= old(out)@ + be_u32_bytes(v));
    }
}

/// Appends the 8-byte big-endian layout of `v` to `out`.
pub fn push_be_u64(out: &mut Vec<u8>, v: u64)
    ensures
        final(out)@ == old(out)@ + be_u64_bytes(v),
{
    out.push((v / 0x100000000000000) as u8);
    out.push(((v / 0x1000000000000) % 0x100) as u8);
    out.push(((v / 0x10000000000) % 0x100) as u8);
    out.push(((v / 0x100000000) % 0x100) as u8);
    out.push(((v / 0x1000000) % 0x100) as u8);
    out.push(((v / 0x10000) % 0x100) as u8);
    out.push(((v / 0x100) % 0x100) as u8);
    out.push((v % 0x100) as u8);
    proof {
        assert(out@ =~= old(out)@ + be_u64_bytes(v));
    }
}

} // verus!
